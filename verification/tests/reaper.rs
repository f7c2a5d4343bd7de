use navigator_sandbox::managed::{
    register_managed_child, unregister_managed_child, ManagedChildren,
};
use navigator_sandbox::reaper::{
    reap_next, ChildStatus, ReaperAction, ReaperEvent, WaitError, RETRY_SECS,
};

fn exited(pid: i32) -> ReaperEvent {
    ReaperEvent::Peeked(Ok(ChildStatus::Exited { pid, code: 0 }))
}

#[test]
fn managed_child_is_left_to_its_waiter() {
    let mut children = ManagedChildren::new();
    register_managed_child(&mut children, 10);
    assert_eq!(reap_next(Some(&children), exited(10)), ReaperAction::AwaitWake);
    assert_eq!(reap_next(Some(&children), exited(11)), ReaperAction::Reap(11));
    unregister_managed_child(&mut children, 10);
    assert_eq!(reap_next(Some(&children), exited(10)), ReaperAction::Reap(10));
}

#[test]
fn poisoned_registry_manages_nothing() {
    assert_eq!(reap_next(None, exited(10)), ReaperAction::Reap(10));
}

#[test]
fn reaper_ends_without_signal_handler() {
    let children = ManagedChildren::new();
    assert_eq!(
        reap_next(Some(&children), ReaperEvent::HandlerRegistered(false)),
        ReaperAction::Stop
    );
    assert_eq!(
        reap_next(Some(&children), ReaperEvent::HandlerRegistered(true)),
        ReaperAction::AwaitWake
    );
    assert_eq!(RETRY_SECS, 5);
}

#[test]
fn sweep_ends_when_nothing_is_left() {
    let children = ManagedChildren::new();
    let next = |event| reap_next(Some(&children), event);
    assert_eq!(next(ReaperEvent::Woken), ReaperAction::Peek);
    assert_eq!(
        next(ReaperEvent::Peeked(Ok(ChildStatus::StillAlive))),
        ReaperAction::AwaitWake
    );
    assert_eq!(
        next(ReaperEvent::Peeked(Err(WaitError::NoChild))),
        ReaperAction::AwaitWake
    );
    assert_eq!(
        next(ReaperEvent::Peeked(Err(WaitError::Other))),
        ReaperAction::AwaitWake
    );
    assert_eq!(
        next(ReaperEvent::Peeked(Err(WaitError::Interrupted))),
        ReaperAction::Peek
    );
}

#[test]
fn sweep_goes_on_after_a_child() {
    let children = ManagedChildren::new();
    let next = |event| reap_next(Some(&children), event);
    let status = ChildStatus::Exited { pid: 5, code: 1 };
    assert_eq!(next(ReaperEvent::Reaped(Ok(status))), ReaperAction::Peek);
    assert_eq!(
        next(ReaperEvent::Reaped(Ok(ChildStatus::StillAlive))),
        ReaperAction::Peek
    );
    assert_eq!(
        next(ReaperEvent::Reaped(Err(WaitError::NoChild))),
        ReaperAction::Peek
    );
    assert_eq!(
        next(ReaperEvent::Reaped(Err(WaitError::Interrupted))),
        ReaperAction::Peek
    );
    assert_eq!(
        next(ReaperEvent::Reaped(Err(WaitError::Other))),
        ReaperAction::AwaitWake
    );
}

#[test]
fn every_status_names_its_child() {
    let statuses = vec![
        ChildStatus::Exited { pid: 3, code: 0 },
        ChildStatus::Signaled { pid: 3, signal: 9, core_dumped: false },
        ChildStatus::Stopped { pid: 3, signal: 19 },
        ChildStatus::PtraceEvent { pid: 3, signal: 5, event: 1 },
        ChildStatus::PtraceSyscall { pid: 3 },
        ChildStatus::Continued { pid: 3 },
    ];
    for status in statuses {
        assert_eq!(status.pid(), Some(3));
    }
    assert_eq!(ChildStatus::StillAlive.pid(), None);
}
