//! Preparing the filesystem for the sandboxed process.
//!
//! Before the child is started, the directories that it may write to are
//! created where they are missing, and handed over to the account that it runs
//! under. The library decides on each step; whoever drives it performs the
//! [`FsAction`] and reports back with an [`FsEvent`].

use crate::error::{ErrorView, SandboxError};
use crate::network::Platform;
use crate::policy::{PolicyView, SandboxPolicy};
use crate::text::Text;
use vstd::pervasive::unreached;
use vstd::prelude::*;

verus! {

/// What is being done.
#[derive(Clone, Copy, Debug, PartialEq, Eq)]
pub enum FsStage {
    /// The configured user is being looked up.
    User,
    /// The configured group is being looked up.
    Group,
    /// It is being found out whether the path at this position exists.
    Probing(usize),
    /// The directory at this position is being created.
    Creating(usize),
    /// The path at this position is being handed over.
    Owning(usize),
}

/// How far the preparation has come.
#[derive(Clone, Copy, Debug, PartialEq, Eq)]
pub struct Preparer {
    /// The id of the configured user, once it is known.
    pub uid: Option<u32>,
    /// The id of the configured group, once it is known.
    pub gid: Option<u32>,
    /// What is being done.
    pub stage: FsStage,
}

/// An operation that the preparation needs.
#[derive(Debug, PartialEq, Eq)]
pub enum FsAction {
    /// Look a user up by name.
    LookupUser(String),
    /// Look a group up by name.
    LookupGroup(String),
    /// Find out whether a path exists.
    Probe(String),
    /// Create a directory with all its parents.
    CreateDir(String),
    /// Set the owner of a path. What is not given stays as it is.
    SetOwner {
        /// The path.
        path: String,
        /// The user that is to own it.
        uid: Option<u32>,
        /// The group that is to own it.
        gid: Option<u32>,
    },
}

/// What came of an operation.
#[derive(Debug, PartialEq, Eq)]
pub enum FsEvent<E> {
    /// The user's id, nothing if there is no such user, or an error.
    User(Result<Option<u32>, E>),
    /// The group's id, nothing if there is no such group, or an error.
    Group(Result<Option<u32>, E>),
    /// Whether the path exists.
    Exists(bool),
    /// The directory was created, or not.
    Created(Result<(), E>),
    /// The owner was set, or not.
    Owned(Result<(), E>),
}

/// What follows.
#[derive(Debug, PartialEq, Eq)]
pub enum FsProgress<E> {
    /// One more operation is needed.
    Perform(Preparer, FsAction),
    /// The filesystem is ready.
    Ready,
    /// The filesystem cannot be prepared.
    Failed(SandboxError<E>),
}

/// What an [`FsStage`] holds.
#[verifier::ext_equal]
pub enum FsStageView {
    User,
    Group,
    Probing(nat),
    Creating(nat),
    Owning(nat),
}

/// What a [`Preparer`] holds.
#[verifier::ext_equal]
pub struct PreparerView {
    pub uid: Option<u32>,
    pub gid: Option<u32>,
    pub stage: FsStageView,
}

/// What an [`FsAction`] holds.
#[verifier::ext_equal]
pub enum FsActionView {
    LookupUser(Text),
    LookupGroup(Text),
    Probe(Text),
    CreateDir(Text),
    SetOwner { path: Text, uid: Option<u32>, gid: Option<u32> },
}

/// What an [`FsProgress`] holds.
#[verifier::ext_equal]
pub enum FsProgressView<E> {
    Perform(PreparerView, FsActionView),
    Ready,
    Failed(ErrorView<E>),
}

impl View for Preparer {
    type V = PreparerView;

    open spec fn view(&self) -> PreparerView {
        PreparerView {
            uid: self.uid,
            gid: self.gid,
            stage: match self.stage {
                FsStage::User => FsStageView::User,
                FsStage::Group => FsStageView::Group,
                FsStage::Probing(i) => FsStageView::Probing(i as nat),
                FsStage::Creating(i) => FsStageView::Creating(i as nat),
                FsStage::Owning(i) => FsStageView::Owning(i as nat),
            },
        }
    }
}

impl View for FsAction {
    type V = FsActionView;

    open spec fn view(&self) -> FsActionView {
        match *self {
            FsAction::LookupUser(name) => FsActionView::LookupUser(name@),
            FsAction::LookupGroup(name) => FsActionView::LookupGroup(name@),
            FsAction::Probe(path) => FsActionView::Probe(path@),
            FsAction::CreateDir(path) => FsActionView::CreateDir(path@),
            FsAction::SetOwner { path, uid, gid } => FsActionView::SetOwner {
                path: path@,
                uid,
                gid,
            },
        }
    }
}

impl<E> View for FsProgress<E> {
    type V = FsProgressView<E>;

    open spec fn view(&self) -> FsProgressView<E> {
        match *self {
            FsProgress::Perform(preparer, action) => FsProgressView::Perform(
                preparer@,
                action@,
            ),
            FsProgress::Ready => FsProgressView::Ready,
            FsProgress::Failed(error) => FsProgressView::Failed(error@),
        }
    }
}

/// A configured name. An empty one counts as none.
pub open spec fn configured(name: Option<Text>) -> Option<Text> {
    match name {
        Some(n) => if n.len() == 0 {
            None
        } else {
            Some(n)
        },
        None => None,
    }
}

impl PolicyView {
    /// The user that the child runs under, if one is configured.
    pub open spec fn user_name(self) -> Option<Text> {
        configured(self.process.run_as_user)
    }

    /// The group that the child runs under, if one is configured.
    pub open spec fn group_name(self) -> Option<Text> {
        configured(self.process.run_as_group)
    }

    /// The directories that the child may write to.
    pub open spec fn writable(self) -> Seq<Text> {
        self.filesystem.read_write
    }
}

/// The step that takes up the path at position `i`, if there is one.
pub open spec fn fs_visit<E>(
    policy: PolicyView,
    uid: Option<u32>,
    gid: Option<u32>,
    i: nat,
) -> FsProgressView<E> {
    if i < policy.writable().len() {
        FsProgressView::Perform(
            PreparerView { uid, gid, stage: FsStageView::Probing(i) },
            FsActionView::Probe(policy.writable()[i as int]),
        )
    } else {
        FsProgressView::Ready
    }
}

/// The step that hands over the existing path at position `i`. With neither a
/// user nor a group configured there is nobody to hand it to.
pub open spec fn fs_own<E>(
    policy: PolicyView,
    uid: Option<u32>,
    gid: Option<u32>,
    i: nat,
) -> FsProgressView<E> {
    if uid is Some || gid is Some {
        FsProgressView::Perform(
            PreparerView { uid, gid, stage: FsStageView::Owning(i) },
            FsActionView::SetOwner { path: policy.writable()[i as int], uid, gid },
        )
    } else {
        fs_visit(policy, uid, gid, i + 1)
    }
}

/// The step after the user is known, or known not to be configured.
pub open spec fn fs_group<E>(policy: PolicyView, uid: Option<u32>) -> FsProgressView<E> {
    match policy.group_name() {
        Some(name) => FsProgressView::Perform(
            PreparerView { uid, gid: None, stage: FsStageView::Group },
            FsActionView::LookupGroup(name),
        ),
        None => fs_visit(policy, uid, None, 0),
    }
}

/// The first step. Outside Unix there is nothing to prepare.
pub open spec fn fs_begin<E>(policy: PolicyView, platform: Platform) -> FsProgressView<E> {
    if platform == Platform::NonUnix {
        FsProgressView::Ready
    } else {
        match policy.user_name() {
            Some(name) => FsProgressView::Perform(
                PreparerView { uid: None, gid: None, stage: FsStageView::User },
                FsActionView::LookupUser(name),
            ),
            None => fs_group(policy, None),
        }
    }
}

/// Whether an event reports on the operation that was asked for last.
pub open spec fn fs_awaits<E>(preparer: PreparerView, event: FsEvent<E>) -> bool {
    match preparer.stage {
        FsStageView::User => event is User,
        FsStageView::Group => event is Group,
        FsStageView::Probing(_) => event is Exists,
        FsStageView::Creating(_) => event is Created,
        FsStageView::Owning(_) => event is Owned,
    }
}

/// The position of the path that a stage is about.
pub open spec fn fs_position(stage: FsStageView) -> nat {
    match stage {
        FsStageView::Probing(i) => i,
        FsStageView::Creating(i) => i,
        FsStageView::Owning(i) => i,
        _ => 0,
    }
}

/// The error that an event reports, if it reports one.
pub open spec fn fs_failure<E>(event: FsEvent<E>) -> Option<E> {
    match event {
        FsEvent::User(Err(e)) => Some(e),
        FsEvent::Group(Err(e)) => Some(e),
        FsEvent::Created(Err(e)) => Some(e),
        FsEvent::Owned(Err(e)) => Some(e),
        _ => None,
    }
}

/// What follows an event. Every failure ends the preparation.
pub open spec fn fs_next<E>(
    policy: PolicyView,
    preparer: PreparerView,
    event: FsEvent<E>,
) -> FsProgressView<E> {
    let i = fs_position(preparer.stage);
    match (fs_failure(event), event) {
        (Some(e), _) => FsProgressView::Failed(ErrorView::Outside(e)),
        (None, FsEvent::User(Ok(Some(uid)))) => fs_group(policy, Some(uid)),
        (None, FsEvent::User(_)) => FsProgressView::Failed(
            ErrorView::UserNotFound(policy.user_name()->0),
        ),
        (None, FsEvent::Group(Ok(Some(gid)))) => fs_visit(policy, preparer.uid, Some(gid), 0),
        (None, FsEvent::Group(_)) => FsProgressView::Failed(
            ErrorView::GroupNotFound(policy.group_name()->0),
        ),
        (None, FsEvent::Exists(true)) => fs_own(policy, preparer.uid, preparer.gid, i),
        (None, FsEvent::Exists(false)) => FsProgressView::Perform(
            PreparerView { stage: FsStageView::Creating(i), ..preparer },
            FsActionView::CreateDir(policy.writable()[i as int]),
        ),
        (None, FsEvent::Created(_)) => fs_own(policy, preparer.uid, preparer.gid, i),
        (None, FsEvent::Owned(_)) => fs_visit(policy, preparer.uid, preparer.gid, i + 1),
    }
}

/// What holds of every preparer that the steps lead to.
pub open spec fn fs_inv(policy: PolicyView, preparer: PreparerView) -> bool {
    match preparer.stage {
        FsStageView::User => {
            &&& policy.user_name() is Some
            &&& preparer.uid is None
            &&& preparer.gid is None
        },
        FsStageView::Group => {
            &&& policy.group_name() is Some
            &&& preparer.uid is Some <==> policy.user_name() is Some
            &&& preparer.gid is None
        },
        _ => {
            &&& fs_position(preparer.stage) < policy.writable().len()
            &&& preparer.uid is Some <==> policy.user_name() is Some
            &&& preparer.gid is Some <==> policy.group_name() is Some
            &&& preparer.stage is Owning ==> preparer.uid is Some || preparer.gid is Some
        },
    }
}

/// The invariant holds of what a step leads to, where it leads to a further
/// operation.
pub open spec fn fs_progress_inv<E>(policy: PolicyView, progress: FsProgressView<E>) -> bool {
    progress matches FsProgressView::Perform(preparer, _) ==> fs_inv(policy, preparer)
}

/// A configured name, if it is not empty.
fn configured_name(name: &Option<String>) -> (result: Option<&String>)
    ensures
        result is Some <==> configured(name.deep_view()) is Some,
        result matches Some(n) ==> Some(n@) == configured(name.deep_view()),
{
    match name {
        Some(n) => if n.as_str().is_empty() {
            None
        } else {
            Some(n)
        },
        None => None,
    }
}

/// Takes up the path at position `i`, if there is one.
fn visit<E>(policy: &SandboxPolicy, uid: Option<u32>, gid: Option<u32>, i: usize) -> (progress:
    FsProgress<E>)
    ensures
        progress@ == fs_visit::<E>(policy@, uid, gid, i as nat),
{
    if i < policy.filesystem.read_write.len() {
        FsProgress::Perform(
            Preparer { uid, gid, stage: FsStage::Probing(i) },
            FsAction::Probe(policy.filesystem.read_write[i].clone()),
        )
    } else {
        FsProgress::Ready
    }
}

/// Hands over the existing path at position `i`, if there is somebody to hand
/// it to.
fn own<E>(policy: &SandboxPolicy, uid: Option<u32>, gid: Option<u32>, i: usize) -> (progress:
    FsProgress<E>)
    requires
        i < policy@.writable().len(),
    ensures
        progress@ == fs_own::<E>(policy@, uid, gid, i as nat),
{
    if uid.is_some() || gid.is_some() {
        FsProgress::Perform(
            Preparer { uid, gid, stage: FsStage::Owning(i) },
            FsAction::SetOwner { path: policy.filesystem.read_write[i].clone(), uid, gid },
        )
    } else {
        assert(i < policy.filesystem.read_write.len());
        visit(policy, uid, gid, i + 1)
    }
}

/// Goes on after the user is known, or known not to be configured.
fn group<E>(policy: &SandboxPolicy, uid: Option<u32>) -> (progress: FsProgress<E>)
    ensures
        progress@ == fs_group::<E>(policy@, uid),
{
    match configured_name(&policy.process.run_as_group) {
        Some(name) => FsProgress::Perform(
            Preparer { uid, gid: None, stage: FsStage::Group },
            FsAction::LookupGroup(name.clone()),
        ),
        None => visit(policy, uid, None, 0),
    }
}

/// Starts preparing the filesystem for the sandboxed process: directories under
/// `read_write` are created where they are missing, and their ownership is set
/// to the configured user and group.
pub fn prepare_filesystem<E>(policy: &SandboxPolicy, platform: Platform) -> (progress: FsProgress<
    E,
>)
    ensures
        progress@ == fs_begin::<E>(policy@, platform),
        fs_progress_inv(policy@, progress@),
{
    if platform == Platform::NonUnix {
        return FsProgress::Ready;
    }
    match configured_name(&policy.process.run_as_user) {
        Some(name) => FsProgress::Perform(
            Preparer { uid: None, gid: None, stage: FsStage::User },
            FsAction::LookupUser(name.clone()),
        ),
        None => group(policy, None),
    }
}

impl Preparer {
    /// Whether an event reports on the operation that was asked for last.
    pub fn awaits<E>(&self, event: &FsEvent<E>) -> (awaited: bool)
        ensures
            awaited == fs_awaits(self@, *event),
    {
        match (self.stage, event) {
            (FsStage::User, FsEvent::User(_)) => true,
            (FsStage::Group, FsEvent::Group(_)) => true,
            (FsStage::Probing(_), FsEvent::Exists(_)) => true,
            (FsStage::Creating(_), FsEvent::Created(_)) => true,
            (FsStage::Owning(_), FsEvent::Owned(_)) => true,
            _ => false,
        }
    }

    /// Takes the report on the last operation and says what follows.
    pub fn step<E>(self, policy: &SandboxPolicy, event: FsEvent<E>) -> (progress: FsProgress<E>)
        requires
            fs_inv(policy@, self@),
            fs_awaits(self@, event),
        ensures
            progress@ == fs_next(policy@, self@, event),
            fs_progress_inv(policy@, progress@),
    {
        let i: usize = match self.stage {
            FsStage::Probing(i) => i,
            FsStage::Creating(i) => i,
            FsStage::Owning(i) => i,
            _ => 0,
        };
        match event {
            FsEvent::User(Ok(Some(uid))) => group(policy, Some(uid)),
            FsEvent::User(Ok(None)) => match configured_name(&policy.process.run_as_user) {
                Some(name) => FsProgress::Failed(SandboxError::UserNotFound(name.clone())),
                None => unreached(),
            },
            FsEvent::Group(Ok(Some(gid))) => visit(policy, self.uid, Some(gid), 0),
            FsEvent::Group(Ok(None)) => match configured_name(&policy.process.run_as_group) {
                Some(name) => FsProgress::Failed(SandboxError::GroupNotFound(name.clone())),
                None => unreached(),
            },
            FsEvent::Exists(true) => own(policy, self.uid, self.gid, i),
            FsEvent::Exists(false) => FsProgress::Perform(
                Preparer { uid: self.uid, gid: self.gid, stage: FsStage::Creating(i) },
                FsAction::CreateDir(policy.filesystem.read_write[i].clone()),
            ),
            FsEvent::Created(Ok(_)) => own(policy, self.uid, self.gid, i),
            FsEvent::Owned(Ok(_)) => {
                assert(i < policy.filesystem.read_write.len());
                visit(policy, self.uid, self.gid, i + 1)
            },
            FsEvent::User(Err(e)) => FsProgress::Failed(SandboxError::Outside(e)),
            FsEvent::Group(Err(e)) => FsProgress::Failed(SandboxError::Outside(e)),
            FsEvent::Created(Err(e)) => FsProgress::Failed(SandboxError::Outside(e)),
            FsEvent::Owned(Err(e)) => FsProgress::Failed(SandboxError::Outside(e)),
        }
    }
}

} // verus!
