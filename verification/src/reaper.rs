//! The zombie reaper.
//!
//! As PID 1 the supervisor inherits every orphan, and has to collect its exit
//! status. The reaper looks at an exited child without collecting it, and
//! collects it only if nobody else waits for it. The library decides; whoever
//! drives the reaper performs each [`ReaperAction`] and reports back with a
//! [`ReaperEvent`].

use crate::managed::{
    is_child_pid, is_managed_child, known, registered, unregistered, ManagedChildren,
};
use vstd::prelude::*;

verus! {

/// After how many seconds the reaper looks again, signal or not.
pub const RETRY_SECS: u64 = 5;

/// The status of a child, as the kernel reports it.
#[derive(Clone, Copy, PartialEq, Eq, Debug, Structural)]
pub enum ChildStatus {
    /// It exited by itself.
    Exited {
        /// Its id.
        pid: i32,
        /// Its exit code.
        code: i32,
    },
    /// It was killed by a signal.
    Signaled {
        /// Its id.
        pid: i32,
        /// The signal.
        signal: i32,
        /// Whether it left a core dump.
        core_dumped: bool,
    },
    /// It was stopped by a signal.
    Stopped {
        /// Its id.
        pid: i32,
        /// The signal.
        signal: i32,
    },
    /// It was stopped by a traced event.
    PtraceEvent {
        /// Its id.
        pid: i32,
        /// The signal.
        signal: i32,
        /// The event.
        event: i32,
    },
    /// It was stopped at a traced system call.
    PtraceSyscall {
        /// Its id.
        pid: i32,
    },
    /// It was continued.
    Continued {
        /// Its id.
        pid: i32,
    },
    /// No child has anything to report.
    StillAlive,
}

/// Why a child could not be waited for.
#[derive(Clone, Copy, PartialEq, Eq, Debug, Structural)]
pub enum WaitError {
    /// There is no child to wait for.
    NoChild,
    /// A signal came in between.
    Interrupted,
    /// Anything else.
    Other,
}

/// What the reaper learns.
#[derive(Clone, Copy, PartialEq, Eq, Debug)]
pub enum ReaperEvent {
    /// Whether the handler for the signal that tells of exited children could
    /// be registered.
    HandlerRegistered(bool),
    /// The signal came, or it is time to look again.
    Woken,
    /// The status of an exited child, which is not collected yet.
    Peeked(Result<ChildStatus, WaitError>),
    /// What came of collecting a child.
    Reaped(Result<ChildStatus, WaitError>),
}

/// What the reaper does next.
#[derive(Clone, Copy, PartialEq, Eq, Debug, Structural)]
pub enum ReaperAction {
    /// Wait for the signal, or until it is time to look again.
    AwaitWake,
    /// Look at an exited child without collecting it or waiting for one.
    Peek,
    /// Collect this child, without waiting for it to exit.
    Reap(i32),
    /// End the reaper.
    Stop,
}

/// The child that a status is about, if it is about one.
pub open spec fn status_pid(status: ChildStatus) -> Option<i32> {
    match status {
        ChildStatus::Exited { pid, .. } => Some(pid),
        ChildStatus::Signaled { pid, .. } => Some(pid),
        ChildStatus::Stopped { pid, .. } => Some(pid),
        ChildStatus::PtraceEvent { pid, .. } => Some(pid),
        ChildStatus::PtraceSyscall { pid } => Some(pid),
        ChildStatus::Continued { pid } => Some(pid),
        ChildStatus::StillAlive => None,
    }
}

/// What the reaper does next, given the ids that have a waiter of their own.
/// An interrupted look is taken again; a child that somebody waits for ends the
/// sweep, and so does an error; otherwise the sweep goes on until there is
/// nothing more to look at.
pub open spec fn reaper_next(managed: Set<i32>, event: ReaperEvent) -> ReaperAction {
    match event {
        ReaperEvent::HandlerRegistered(done) => if done {
            ReaperAction::AwaitWake
        } else {
            ReaperAction::Stop
        },
        ReaperEvent::Woken => ReaperAction::Peek,
        ReaperEvent::Peeked(Ok(status)) => match status_pid(status) {
            Some(pid) => if managed.contains(pid) {
                ReaperAction::AwaitWake
            } else {
                ReaperAction::Reap(pid)
            },
            None => ReaperAction::AwaitWake,
        },
        ReaperEvent::Peeked(Err(error)) => if error == WaitError::Interrupted {
            ReaperAction::Peek
        } else {
            ReaperAction::AwaitWake
        },
        ReaperEvent::Reaped(Ok(_)) => ReaperAction::Peek,
        ReaperEvent::Reaped(Err(error)) => if error == WaitError::Other {
            ReaperAction::AwaitWake
        } else {
            ReaperAction::Peek
        },
    }
}

impl ChildStatus {
    /// The child that the status is about, if it is about one.
    pub fn pid(&self) -> (pid: Option<i32>)
        ensures
            pid == status_pid(*self),
    {
        match *self {
            ChildStatus::Exited { pid, .. } => Some(pid),
            ChildStatus::Signaled { pid, .. } => Some(pid),
            ChildStatus::Stopped { pid, .. } => Some(pid),
            ChildStatus::PtraceEvent { pid, .. } => Some(pid),
            ChildStatus::PtraceSyscall { pid } => Some(pid),
            ChildStatus::Continued { pid } => Some(pid),
            ChildStatus::StillAlive => None,
        }
    }
}

/// Says what the reaper does next. With no registry to ask (its lock is
/// poisoned) no child counts as managed.
pub fn reap_next(children: Option<&ManagedChildren>, event: ReaperEvent) -> (action: ReaperAction)
    ensures
        action == reaper_next(known(children), event),
{
    match event {
        ReaperEvent::HandlerRegistered(true) => ReaperAction::AwaitWake,
        ReaperEvent::HandlerRegistered(false) => ReaperAction::Stop,
        ReaperEvent::Woken => ReaperAction::Peek,
        ReaperEvent::Peeked(Ok(status)) => match status.pid() {
            Some(pid) => if is_managed_child(children, pid) {
                ReaperAction::AwaitWake
            } else {
                ReaperAction::Reap(pid)
            },
            None => ReaperAction::AwaitWake,
        },
        ReaperEvent::Peeked(Err(error)) => match error {
            WaitError::Interrupted => ReaperAction::Peek,
            WaitError::NoChild | WaitError::Other => ReaperAction::AwaitWake,
        },
        ReaperEvent::Reaped(Ok(_)) => ReaperAction::Peek,
        ReaperEvent::Reaped(Err(error)) => match error {
            WaitError::NoChild | WaitError::Interrupted => ReaperAction::Peek,
            WaitError::Other => ReaperAction::AwaitWake,
        },
    }
}

/// A child that has a waiter of its own is never collected by the reaper,
/// whatever the reaper learns.
pub proof fn law_managed_child_is_never_reaped(managed: Set<i32>, event: ReaperEvent, pid: i32)
    requires
        managed.contains(pid),
    ensures
        reaper_next(managed, event) != ReaperAction::Reap(pid),
{
}

/// An exited child that nobody waits for is collected as soon as the reaper
/// looks at it, and nothing else ever is.
pub proof fn law_exactly_orphans_are_reaped(managed: Set<i32>, event: ReaperEvent, pid: i32)
    ensures
        reaper_next(managed, event) == ReaperAction::Reap(pid) <==> {
            &&& event matches ReaperEvent::Peeked(Ok(status))
            &&& status_pid(status) == Some(pid)
            &&& !managed.contains(pid)
        },
{
}

/// From its registration until it is unregistered a child's status is left to
/// its waiter; afterwards the reaper collects it like any other.
pub proof fn law_registration_decides_who_collects(
    managed: Set<i32>,
    pid: u32,
    status: ChildStatus,
)
    requires
        status_pid(status) == Some(pid as i32),
        is_child_pid(pid as int),
    ensures
        reaper_next(registered(managed, pid), ReaperEvent::Peeked(Ok(status)))
            == ReaperAction::AwaitWake,
        reaper_next(unregistered(managed, pid), ReaperEvent::Peeked(Ok(status)))
            == ReaperAction::Reap(pid as i32),
{
}

/// The reaper ends only where its signal handler cannot be registered.
pub proof fn law_reaper_ends_only_without_handler(managed: Set<i32>, event: ReaperEvent)
    ensures
        reaper_next(managed, event) == ReaperAction::Stop <==> event
            == ReaperEvent::HandlerRegistered(false),
{
}

/// A status names the child that it is about, whatever became of that child.
pub proof fn law_status_names_its_child(status: ChildStatus, pid: Option<i32>)
    requires
        call_ensures(ChildStatus::pid, (&status,), pid),
    ensures
        pid == status_pid(status),
        match status {
            ChildStatus::Exited { pid: child, .. } => pid == Some(child),
            ChildStatus::Signaled { pid: child, .. } => pid == Some(child),
            ChildStatus::Stopped { pid: child, .. } => pid == Some(child),
            ChildStatus::PtraceEvent { pid: child, .. } => pid == Some(child),
            ChildStatus::PtraceSyscall { pid: child } => pid == Some(child),
            ChildStatus::Continued { pid: child } => pid == Some(child),
            ChildStatus::StillAlive => pid is None,
        },
{
}

/// A sweep goes on until there is nothing left for it to do: after every child
/// that was collected the reaper looks again, whatever the child's status was,
/// and also after one that was gone already and after an interruption. It ends
/// only at a look that shows no child, one that somebody waits for, or an error,
/// and at a child that cannot be collected.
pub proof fn law_sweep_goes_on_until_nothing_is_left(
    children: Option<&ManagedChildren>,
    event: ReaperEvent,
    action: ReaperAction,
)
    requires
        call_ensures(reap_next, (children, event), action),
    ensures
        action is Peek <==> match event {
            ReaperEvent::Woken => true,
            ReaperEvent::Peeked(Err(error)) => error is Interrupted,
            ReaperEvent::Reaped(Ok(_)) => true,
            ReaperEvent::Reaped(Err(error)) => !(error is Other),
            _ => false,
        },
        action is AwaitWake <==> match event {
            ReaperEvent::HandlerRegistered(done) => done,
            ReaperEvent::Peeked(Ok(status)) => match status_pid(status) {
                Some(pid) => children is Some && children->0@.contains(pid),
                None => true,
            },
            ReaperEvent::Peeked(Err(error)) => !(error is Interrupted),
            ReaperEvent::Reaped(Err(error)) => error is Other,
            _ => false,
        },
        action is Stop <==> event == ReaperEvent::HandlerRegistered(false),
        action matches ReaperAction::Reap(pid) ==> {
            &&& event matches ReaperEvent::Peeked(Ok(status))
            &&& status_pid(status) == Some(pid)
            &&& children is None || !children->0@.contains(pid)
        },
{
}

/// The children that a sweep collects, if `exited` is what its looks show one
/// after the other and collecting them succeeds.
pub open spec fn swept(managed: Set<i32>, exited: Seq<ChildStatus>) -> Seq<i32>
    decreases exited.len(),
{
    if exited.len() == 0 {
        Seq::empty()
    } else {
        match reaper_next(managed, ReaperEvent::Peeked(Ok(exited.first()))) {
            ReaperAction::Reap(pid) => seq![pid] + match reaper_next(
                managed,
                ReaperEvent::Reaped(Ok(exited.first())),
            ) {
                ReaperAction::Peek => swept(managed, exited.skip(1)),
                _ => Seq::empty(),
            },
            _ => Seq::empty(),
        }
    }
}

/// One sweep collects every orphan that has exited, in the order in which they
/// show, however many there are and however they ended.
pub proof fn law_one_sweep_collects_all_orphans(
    managed: Set<i32>,
    exited: Seq<ChildStatus>,
    pids: Seq<i32>,
)
    requires
        pids.len() == exited.len(),
        forall|i: int|
            #![trigger exited[i]]
            0 <= i < exited.len() ==> status_pid(exited[i]) == Some(pids[i])
                && !managed.contains(pids[i]),
    ensures
        swept(managed, exited) == pids,
    decreases exited.len(),
{
    if exited.len() > 0 {
        let rest = exited.skip(1);
        assert forall|i: int| #![trigger rest[i]] 0 <= i < rest.len() implies status_pid(rest[i])
            == Some(pids.skip(1)[i]) && !managed.contains(pids.skip(1)[i]) by {
            assert(rest[i] == exited[i + 1]);
        }
        law_one_sweep_collects_all_orphans(managed, rest, pids.skip(1));
        assert(status_pid(exited[0]) == Some(pids[0]));
        assert(seq![pids[0]] + pids.skip(1) =~= pids);
    } else {
        assert(swept(managed, exited) =~= pids);
    }
}

/// Without a signal the reaper looks again after five seconds.
pub proof fn law_reaper_looks_again()
    ensures
        RETRY_SECS == 5,
{
}

} // verus!
