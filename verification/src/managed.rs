//! The registry of children that have a waiter of their own.
//!
//! The supervisor may run as PID 1 and then has to reap every orphan that is
//! handed to it. Children that somebody waits for explicitly (the entrypoint
//! and the processes of SSH sessions) are registered here, so that the reaper
//! leaves their exit status alone.

use std::collections::HashSet;
use vstd::prelude::*;

verus! {

broadcast use vstd::std_specs::hash::group_hash_axioms;

/// Whether `pid` can name a child process: positive, and small enough for the
/// signed type in which the kernel reports process ids.
pub open spec fn is_child_pid(pid: int) -> bool {
    0 < pid <= i32::MAX
}

/// The registered ids after `pid` is registered.
pub open spec fn registered(pids: Set<i32>, pid: u32) -> Set<i32> {
    if is_child_pid(pid as int) {
        pids.insert(pid as i32)
    } else {
        pids
    }
}

/// The registered ids after `pid` is unregistered.
pub open spec fn unregistered(pids: Set<i32>, pid: u32) -> Set<i32> {
    if is_child_pid(pid as int) {
        pids.remove(pid as i32)
    } else {
        pids
    }
}

/// The registered ids, as far as there is a registry to ask.
pub open spec fn known(children: Option<&ManagedChildren>) -> Set<i32> {
    match children {
        Some(c) => c@,
        None => Set::empty(),
    }
}

/// The set of process ids with an explicit waiter.
pub struct ManagedChildren {
    pids: HashSet<i32>,
}

impl View for ManagedChildren {
    type V = Set<i32>;

    closed spec fn view(&self) -> Set<i32> {
        self.pids@
    }
}

impl ManagedChildren {
    /// Every registered id is one that a child can have.
    pub open spec fn wf(&self) -> bool {
        forall|pid: i32| #[trigger] self@.contains(pid) ==> is_child_pid(pid as int)
    }

    /// An empty registry.
    pub fn new() -> (children: Self)
        ensures
            children.wf(),
            children@ == Set::<i32>::empty(),
    {
        ManagedChildren { pids: HashSet::new() }
    }
}

/// Registers a child that is waited for explicitly. An id that no child can
/// have is ignored.
pub fn register_managed_child(children: &mut ManagedChildren, pid: u32)
    ensures
        old(children).wf() ==> final(children).wf(),
        final(children)@ == registered(old(children)@, pid),
{
    if pid == 0 || pid > i32::MAX as u32 {
        return;
    }
    children.pids.insert(pid as i32);
    assert(children@ == old(children)@.insert(pid as i32));
}

/// Removes a child from the registry. An id that is not registered, or that no
/// child can have, is ignored.
pub fn unregister_managed_child(children: &mut ManagedChildren, pid: u32)
    ensures
        old(children).wf() ==> final(children).wf(),
        final(children)@ == unregistered(old(children)@, pid),
{
    if pid == 0 || pid > i32::MAX as u32 {
        return;
    }
    let key: i32 = pid as i32;
    children.pids.remove(&key);
    assert(children@ == old(children)@.remove(key));
}

/// Whether `pid` is registered. With no registry to ask (its lock is poisoned)
/// nothing counts as managed.
pub fn is_managed_child(children: Option<&ManagedChildren>, pid: i32) -> (managed: bool)
    ensures
        managed == known(children).contains(pid),
{
    match children {
        Some(c) => c.pids.contains(&pid),
        None => false,
    }
}

/// A child that was just registered is managed, whatever was registered before,
/// and nothing else has changed.
pub proof fn law_registered_child_is_managed(pids: Set<i32>, pid: u32, other: i32)
    requires
        is_child_pid(pid as int),
    ensures
        registered(pids, pid).contains(pid as i32),
        other != pid ==> registered(pids, pid).contains(other) == pids.contains(other),
{
}

/// A child that was just unregistered is not managed, whatever was registered
/// before, and nothing else has changed.
pub proof fn law_unregistered_child_is_not_managed(pids: Set<i32>, pid: u32, other: i32)
    requires
        is_child_pid(pid as int),
    ensures
        !unregistered(pids, pid).contains(pid as i32),
        other != pid ==> unregistered(pids, pid).contains(other) == pids.contains(other),
{
}

/// Unregistering undoes the registration of a child that was not managed
/// before.
pub proof fn law_unregister_undoes_register(pids: Set<i32>, pid: u32)
    requires
        is_child_pid(pid as int) ==> !pids.contains(pid as i32),
    ensures
        unregistered(registered(pids, pid), pid) == pids,
{
    assert(unregistered(registered(pids, pid), pid) =~= pids);
}

/// Registering a child twice is the same as registering it once.
pub proof fn law_register_is_idempotent(pids: Set<i32>, pid: u32)
    ensures
        registered(registered(pids, pid), pid) == registered(pids, pid),
{
    assert(registered(registered(pids, pid), pid) =~= registered(pids, pid));
}

/// An id that no child can have changes nothing.
pub proof fn law_impossible_ids_are_ignored(pids: Set<i32>, pid: u32)
    requires
        !is_child_pid(pid as int),
    ensures
        registered(pids, pid) == pids,
        unregistered(pids, pid) == pids,
{
}

/// The registry goes by the id, and by nothing else: exactly the registered
/// child is added, and exactly the unregistered one is removed. Only zero and
/// what does not fit the kernel's type are no ids.
pub proof fn law_registry_goes_by_id(pids: Set<i32>, pid: u32, other: i32)
    ensures
        registered(pids, pid).contains(other) <==> pids.contains(other) || (0 < other && other
            == pid),
        unregistered(pids, pid).contains(other) <==> pids.contains(other) && !(0 < other && other
            == pid),
{
}

/// A child is managed exactly if its id is in the registry. Without a registry
/// to ask none is.
pub proof fn law_managed_is_registered(
    children: Option<&ManagedChildren>,
    pid: i32,
    managed: bool,
)
    requires
        call_ensures(is_managed_child, (children, pid), managed),
    ensures
        children matches Some(registry) ==> managed == registry@.contains(pid),
        children is None ==> !managed,
        known(children).contains(pid) == managed,
{
}

} // verus!
