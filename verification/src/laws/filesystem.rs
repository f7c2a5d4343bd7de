//! What preparing the filesystem comes to.

use crate::error::ErrorView;
use crate::filesystem::{
    fs_awaits, fs_begin, fs_failure, fs_inv, fs_next, fs_position, prepare_filesystem, FsAction,
    FsActionView, FsEvent, FsProgress, FsProgressView, FsStageView, PreparerView,
};
use crate::network::Platform;
use crate::policy::{PolicyView, SandboxPolicy};
use crate::text::Text;
use vstd::prelude::*;

verus! {

/// Where the preparation stands after a series of events.
pub open spec fn fs_run<E>(
    policy: PolicyView,
    platform: Platform,
    events: Seq<FsEvent<E>>,
) -> FsProgressView<E>
    decreases events.len(),
{
    if events.len() == 0 {
        fs_begin(policy, platform)
    } else {
        match fs_run(policy, platform, events.drop_last()) {
            FsProgressView::Perform(preparer, _) => fs_next(policy, preparer, events.last()),
            ended => ended,
        }
    }
}

/// Whether each event of a series reports on the operation that was asked for.
pub open spec fn fs_admissible<E>(
    policy: PolicyView,
    platform: Platform,
    events: Seq<FsEvent<E>>,
) -> bool
    decreases events.len(),
{
    events.len() == 0 || {
        &&& fs_admissible(policy, platform, events.drop_last())
        &&& fs_run(policy, platform, events.drop_last()) matches FsProgressView::Perform(
            preparer,
            _,
        )
        &&& fs_awaits(preparer, events.last())
    }
}

/// Whether one operation fits what exists before and after it: nothing
/// vanishes, a probe reports what is so, and a created directory is there
/// afterwards. Other paths may come to exist as well, such as the parents of a
/// created directory.
pub open spec fn fits<E>(
    action: FsActionView,
    event: FsEvent<E>,
    before: Set<Text>,
    after: Set<Text>,
) -> bool {
    &&& before.subset_of(after)
    &&& match (action, event) {
        (FsActionView::Probe(path), FsEvent::Exists(exists)) => exists == before.contains(path),
        (FsActionView::CreateDir(path), FsEvent::Created(Ok(_))) => after.contains(path),
        _ => true,
    }
}

/// Whether a series of events is true of a filesystem. `worlds` holds the paths
/// that exist at the start and after each event.
pub open spec fn truthful<E>(
    policy: PolicyView,
    platform: Platform,
    events: Seq<FsEvent<E>>,
    worlds: Seq<Set<Text>>,
) -> bool
    decreases events.len(),
{
    &&& worlds.len() == events.len() + 1
    &&& events.len() > 0 ==> {
        &&& truthful(policy, platform, events.drop_last(), worlds.drop_last())
        &&& fs_run(policy, platform, events.drop_last()) matches FsProgressView::Perform(_, action)
            ==> fits(action, events.last(), worlds[events.len() - 1], worlds.last())
    }
}

/// The changes of ownership that took place in a series of events, in their
/// order: the path, its new user and its new group.
pub open spec fn handed_over<E>(
    policy: PolicyView,
    platform: Platform,
    events: Seq<FsEvent<E>>,
) -> Seq<(Text, Option<u32>, Option<u32>)>
    decreases events.len(),
{
    if events.len() == 0 {
        Seq::empty()
    } else {
        let before = handed_over(policy, platform, events.drop_last());
        match (fs_run(policy, platform, events.drop_last()), events.last()) {
            (
                FsProgressView::Perform(_, FsActionView::SetOwner { path, uid, gid }),
                FsEvent::Owned(Ok(_)),
            ) => before.push((path, uid, gid)),
            _ => before,
        }
    }
}

/// How many names are looked up before the first path is taken up.
pub open spec fn lookups(policy: PolicyView) -> nat {
    (if policy.user_name() is Some {
        1nat
    } else {
        0nat
    }) + (if policy.group_name() is Some {
        1nat
    } else {
        0nat
    })
}

/// The id of the configured user, as it was reported.
pub open spec fn reported_uid<E>(policy: PolicyView, events: Seq<FsEvent<E>>) -> Option<u32> {
    if policy.user_name() is Some && events.len() > 0 {
        match events[0] {
            FsEvent::User(Ok(uid)) => uid,
            _ => None,
        }
    } else {
        None
    }
}

/// The id of the configured group, as it was reported.
pub open spec fn reported_gid<E>(policy: PolicyView, events: Seq<FsEvent<E>>) -> Option<u32> {
    let at: int = if policy.user_name() is Some {
        1
    } else {
        0
    };
    if policy.group_name() is Some && events.len() > at {
        match events[at] {
            FsEvent::Group(Ok(gid)) => gid,
            _ => None,
        }
    } else {
        None
    }
}

/// Whether somebody is configured to own the directories.
pub open spec fn has_account(policy: PolicyView) -> bool {
    policy.user_name() is Some || policy.group_name() is Some
}

/// The operation that a stage waits for.
pub open spec fn stage_action(policy: PolicyView, preparer: PreparerView) -> FsActionView {
    let path = policy.writable()[fs_position(preparer.stage) as int];
    match preparer.stage {
        FsStageView::User => FsActionView::LookupUser(policy.user_name()->0),
        FsStageView::Group => FsActionView::LookupGroup(policy.group_name()->0),
        FsStageView::Probing(_) => FsActionView::Probe(path),
        FsStageView::Creating(_) => FsActionView::CreateDir(path),
        FsStageView::Owning(_) => FsActionView::SetOwner {
            path,
            uid: preparer.uid,
            gid: preparer.gid,
        },
    }
}

/// How many directories exist for certain at a stage.
pub open spec fn made(stage: FsStageView) -> nat {
    fs_position(stage) + (if stage is Owning {
        1nat
    } else {
        0nat
    })
}

/// How many operations a path has taken before a stage.
spec fn stage_offset(stage: FsStageView) -> nat {
    match stage {
        FsStageView::Creating(_) => 1,
        FsStageView::Owning(_) => 2,
        _ => 0,
    }
}

/// The changes of ownership that hand the first `n` directories over to the
/// account that was reported; none without a configured account.
pub open spec fn owners<E>(policy: PolicyView, events: Seq<FsEvent<E>>, n: nat) -> Seq<
    (Text, Option<u32>, Option<u32>),
> {
    if has_account(policy) {
        Seq::new(
            n,
            |j: int|
                (policy.writable()[j], reported_uid(policy, events), reported_gid(policy, events)),
        )
    } else {
        Seq::empty()
    }
}

/// What the events so far say of where the preparation stands.
spec fn fs_story<E>(
    policy: PolicyView,
    platform: Platform,
    events: Seq<FsEvent<E>>,
    progress: FsProgressView<E>,
) -> bool {
    match progress {
        FsProgressView::Perform(preparer, action) => {
            &&& platform != Platform::NonUnix
            &&& fs_inv(policy, preparer)
            &&& action == stage_action(policy, preparer)
            &&& match preparer.stage {
                FsStageView::User => {
                    &&& events.len() == 0
                    &&& handed_over(policy, platform, events) == owners(policy, events, 0)
                },
                FsStageView::Group => {
                    &&& events.len() + 1 == lookups(policy)
                    &&& handed_over(policy, platform, events) == owners(policy, events, 0)
                    &&& preparer.uid == reported_uid(policy, events)
                },
                _ => {
                    let i = fs_position(preparer.stage);
                    &&& lookups(policy) <= events.len() <= lookups(policy) + 3 * i + stage_offset(
                        preparer.stage,
                    )
                    &&& preparer.uid == reported_uid(policy, events)
                    &&& preparer.gid == reported_gid(policy, events)
                    &&& handed_over(policy, platform, events) == owners(policy, events, i)
                },
            }
        },
        FsProgressView::Ready => {
            ||| platform == Platform::NonUnix && events.len() == 0
            ||| {
                &&& platform != Platform::NonUnix
                &&& reported_uid(policy, events) is Some <==> policy.user_name() is Some
                &&& reported_gid(policy, events) is Some <==> policy.group_name() is Some
                &&& lookups(policy) <= events.len() <= lookups(policy) + 3
                    * policy.writable().len()
                &&& handed_over(policy, platform, events) == owners(
                    policy,
                    events,
                    policy.writable().len(),
                )
            }
        },
        FsProgressView::Failed(error) => {
            &&& 1 <= events.len() <= lookups(policy) + 3 * policy.writable().len()
            &&& match error {
                ErrorView::Outside(e) => fs_failure(events.last()) == Some(e),
                ErrorView::UserNotFound(name) => {
                    &&& events.last() == FsEvent::<E>::User(Ok(None))
                    &&& policy.user_name() == Some(name)
                },
                ErrorView::GroupNotFound(name) => {
                    &&& events.last() == FsEvent::<E>::Group(Ok(None))
                    &&& policy.group_name() == Some(name)
                },
                _ => false,
            }
        },
    }
}

/// What was reported of the configured names does not change any more once
/// they have been looked up.
proof fn lemma_reported_ids_stay<E>(policy: PolicyView, events: Seq<FsEvent<E>>)
    requires
        events.len() > lookups(policy),
    ensures
        reported_uid(policy, events) == reported_uid(policy, events.drop_last()),
        reported_gid(policy, events) == reported_gid(policy, events.drop_last()),
{
    if policy.user_name() is Some {
        assert(events.drop_last()[0] == events[0]);
    }
    if lookups(policy) > 0 {
        assert(events.drop_last()[lookups(policy) - 1] == events[lookups(policy) - 1]);
    }
}

proof fn lemma_fs_story<E>(policy: PolicyView, platform: Platform, events: Seq<FsEvent<E>>)
    requires
        fs_admissible(policy, platform, events),
    ensures
        fs_story(policy, platform, events, fs_run(policy, platform, events)),
    decreases events.len(),
{
    assert(owners(policy, events, 0) =~= Seq::empty());
    if events.len() > 0 {
        let before = events.drop_last();
        lemma_fs_story(policy, platform, before);
        assert(owners(policy, before, 0) =~= Seq::empty());
        let preparer = fs_run(policy, platform, before)->Perform_0;
        match preparer.stage {
            FsStageView::User => {},
            FsStageView::Group => {
                if policy.user_name() is Some {
                    assert(before[0] == events[0]);
                }
            },
            _ => {
                let i = fs_position(preparer.stage);
                lemma_reported_ids_stay(policy, events);
                assert(owners(policy, events, i) =~= owners(policy, before, i));
                if has_account(policy) {
                    assert(owners(policy, events, i + 1) =~= owners(policy, events, i).push(
                        (policy.writable()[i as int], preparer.uid, preparer.gid),
                    ));
                }
            },
        }
    }
}

/// Whether the first `count` directories are among the paths that exist.
pub open spec fn directories_exist(policy: PolicyView, count: nat, now: Set<Text>) -> bool {
    forall|j: int| 0 <= j < count ==> now.contains(#[trigger] policy.writable()[j])
}

/// How many directories exist for certain where the preparation stands.
pub open spec fn made_by<E>(policy: PolicyView, progress: FsProgressView<E>) -> nat {
    match progress {
        FsProgressView::Perform(preparer, _) => made(preparer.stage),
        FsProgressView::Ready => policy.writable().len(),
        FsProgressView::Failed(_) => 0,
    }
}

/// One step of the preparation leaves no directory behind.
pub proof fn lemma_step_makes_directories<E>(
    policy: PolicyView,
    preparer: PreparerView,
    event: FsEvent<E>,
    before: Set<Text>,
    after: Set<Text>,
)
    requires
        fs_inv(policy, preparer),
        fs_awaits(preparer, event),
        fits(stage_action(policy, preparer), event, before, after),
        directories_exist(policy, made(preparer.stage), before),
    ensures
        directories_exist(policy, made_by(policy, fs_next(policy, preparer, event)), after),
        fs_next(policy, preparer, event) matches FsProgressView::Perform(next, action) ==> action
            == stage_action(policy, next),
{
}

proof fn lemma_directories_exist<E>(
    policy: PolicyView,
    platform: Platform,
    events: Seq<FsEvent<E>>,
    worlds: Seq<Set<Text>>,
)
    requires
        platform != Platform::NonUnix,
        fs_admissible(policy, platform, events),
        truthful(policy, platform, events, worlds),
    ensures
        directories_exist(
            policy,
            made_by(policy, fs_run(policy, platform, events)),
            worlds.last(),
        ),
    decreases events.len(),
{
    if events.len() > 0 {
        let before = worlds[events.len() - 1];
        lemma_directories_exist(policy, platform, events.drop_last(), worlds.drop_last());
        lemma_fs_story(policy, platform, events.drop_last());
        assert(worlds.drop_last().last() == before);
        lemma_step_makes_directories(
            policy,
            fs_run(policy, platform, events.drop_last())->Perform_0,
            events.last(),
            before,
            worlds.last(),
        );
    }
}

/// Directories under `read_write` are created if they do not exist: once the
/// preparation has succeeded, every one of them exists, whatever existed before,
/// whatever else comes to exist meanwhile, and whether or not an account is
/// configured.
pub proof fn law_writable_directories_exist<E>(
    policy: PolicyView,
    platform: Platform,
    events: Seq<FsEvent<E>>,
    worlds: Seq<Set<Text>>,
    path: Text,
)
    requires
        platform != Platform::NonUnix,
        fs_admissible(policy, platform, events),
        truthful(policy, platform, events, worlds),
        fs_run(policy, platform, events) is Ready,
        policy.writable().contains(path),
    ensures
        worlds.last().contains(path),
{
    lemma_directories_exist(policy, platform, events, worlds);
    let j = choose|j: int| 0 <= j < policy.writable().len() && policy.writable()[j] == path;
    assert(worlds.last().contains(policy.writable()[j]));
}

/// Once the preparation has succeeded, every directory under `read_write` has
/// been handed over to the configured user and group, under the ids that were
/// reported for their names: one change for each directory, in the order of the
/// list, and no other change. What is not configured stays as it is, and without
/// a configured account nothing changes.
pub proof fn law_writable_directories_are_handed_over<E>(
    policy: PolicyView,
    platform: Platform,
    events: Seq<FsEvent<E>>,
)
    requires
        platform != Platform::NonUnix,
        fs_admissible(policy, platform, events),
        fs_run(policy, platform, events) is Ready,
    ensures
        handed_over(policy, platform, events) == owners(
            policy,
            events,
            policy.writable().len(),
        ),
        reported_uid(policy, events) is Some <==> policy.user_name() is Some,
        reported_gid(policy, events) is Some <==> policy.group_name() is Some,
{
    lemma_fs_story(policy, platform, events);
}

/// Nothing but the directories under `read_write` is probed, created or handed
/// over, and they are handed over to nobody but the configured account, under
/// the ids that were reported.
pub proof fn law_only_writable_directories_are_touched<E>(
    policy: PolicyView,
    platform: Platform,
    events: Seq<FsEvent<E>>,
)
    requires
        fs_admissible(policy, platform, events),
    ensures
        fs_run(policy, platform, events) matches FsProgressView::Perform(_, action) ==> match action {
            FsActionView::CreateDir(path) => policy.writable().contains(path),
            FsActionView::Probe(path) => policy.writable().contains(path),
            FsActionView::SetOwner { path, uid, gid } => {
                &&& policy.writable().contains(path)
                &&& has_account(policy)
                &&& uid == reported_uid(policy, events)
                &&& gid == reported_gid(policy, events)
                &&& uid is Some <==> policy.user_name() is Some
                &&& gid is Some <==> policy.group_name() is Some
            },
            FsActionView::LookupUser(name) => policy.user_name() == Some(name),
            FsActionView::LookupGroup(name) => policy.group_name() == Some(name),
        },
{
    lemma_fs_story(policy, platform, events);
}

/// The preparation takes at most one operation for each configured name and
/// three for each directory.
pub proof fn law_preparation_is_bounded<E>(
    policy: PolicyView,
    platform: Platform,
    events: Seq<FsEvent<E>>,
)
    requires
        fs_admissible(policy, platform, events),
    ensures
        events.len() <= lookups(policy) + 3 * policy.writable().len(),
{
    lemma_fs_story(policy, platform, events);
}

/// The preparation fails with the error of the last operation, or because a
/// configured name is not known, and for no other reason.
pub proof fn law_preparation_fails_with_last_report<E>(
    policy: PolicyView,
    platform: Platform,
    events: Seq<FsEvent<E>>,
)
    requires
        fs_admissible(policy, platform, events),
    ensures
        fs_run(policy, platform, events) matches FsProgressView::Failed(error) ==> {
            &&& events.len() > 0
            &&& match error {
                ErrorView::Outside(e) => fs_failure(events.last()) == Some(e),
                ErrorView::UserNotFound(name) => {
                    &&& events.last() == FsEvent::<E>::User(Ok(None))
                    &&& policy.user_name() == Some(name)
                },
                ErrorView::GroupNotFound(name) => {
                    &&& events.last() == FsEvent::<E>::Group(Ok(None))
                    &&& policy.group_name() == Some(name)
                },
                _ => false,
            }
        },
        events.len() > 0 && (fs_failure(events.last()) is Some || events.last() == FsEvent::<
            E,
        >::User(Ok(None)) || events.last() == FsEvent::<E>::Group(Ok(None))) ==> fs_run(
            policy,
            platform,
            events,
        ) is Failed,
{
    lemma_fs_story(policy, platform, events);
}

/// A name is configured if it is given and not empty, however short it is. It
/// is then taken as it stands.
pub proof fn law_only_empty_names_count_as_none(policy: PolicyView, name: Text)
    ensures
        policy.user_name() == Some(name) <==> policy.process.run_as_user == Some(name)
            && name.len() > 0,
        policy.group_name() == Some(name) <==> policy.process.run_as_group == Some(name)
            && name.len() > 0,
{
}

/// The operation that the preparation asks for, if it asks for one.
pub open spec fn fs_asked<E>(progress: FsProgressView<E>) -> Option<FsActionView> {
    match progress {
        FsProgressView::Perform(_, action) => Some(action),
        _ => None,
    }
}

/// How many paths have been probed in a series of events.
pub open spec fn probed<E>(events: Seq<FsEvent<E>>) -> nat
    decreases events.len(),
{
    if events.len() == 0 {
        0
    } else {
        probed(events.drop_last()) + (if events.last() is Exists {
            1nat
        } else {
            0nat
        })
    }
}

/// What the events so far say of the paths that were taken up.
spec fn probe_story<E>(
    policy: PolicyView,
    events: Seq<FsEvent<E>>,
    progress: FsProgressView<E>,
) -> bool {
    match progress {
        FsProgressView::Perform(preparer, _) => match preparer.stage {
            FsStageView::User | FsStageView::Group => {
                &&& probed(events) == 0
                &&& events.len() > 0 ==> events[0] matches FsEvent::User(Ok(Some(_)))
            },
            FsStageView::Probing(i) => probed(events) == i,
            FsStageView::Creating(i) => {
                &&& probed(events) == i + 1
                &&& events.last() == FsEvent::<E>::Exists(false)
            },
            FsStageView::Owning(i) => {
                &&& probed(events) == i + 1
                &&& events.last() == FsEvent::<E>::Exists(true) || (
                events.last() matches FsEvent::Created(Ok(_)))
            },
        },
        FsProgressView::Ready => probed(events) == policy.filesystem.read_write.len(),
        FsProgressView::Failed(_) => true,
    }
}

proof fn lemma_probe_story<E>(policy: PolicyView, platform: Platform, events: Seq<FsEvent<E>>)
    requires
        platform != Platform::NonUnix,
        fs_admissible(policy, platform, events),
    ensures
        probe_story(policy, events, fs_run(policy, platform, events)),
    decreases events.len(),
{
    if events.len() > 0 {
        lemma_probe_story(policy, platform, events.drop_last());
        lemma_fs_story(policy, platform, events.drop_last());
    }
}

/// On Unix every configured name is looked up: the user first, then the group
/// once the user is known. Nothing else is looked up, and no name twice.
pub proof fn law_configured_names_are_looked_up<E>(
    policy: PolicyView,
    platform: Platform,
    events: Seq<FsEvent<E>>,
    name: Text,
)
    requires
        platform != Platform::NonUnix,
        fs_admissible(policy, platform, events),
    ensures
        fs_asked(fs_run(policy, platform, events)) == Some(FsActionView::LookupUser(name)) <==> {
            &&& policy.process.run_as_user == Some(name)
            &&& name.len() > 0
            &&& events.len() == 0
        },
        fs_asked(fs_run(policy, platform, events)) == Some(FsActionView::LookupGroup(name)) <==> {
            &&& policy.process.run_as_group == Some(name)
            &&& name.len() > 0
            &&& if (policy.process.run_as_user is Some && policy.process.run_as_user->0.len() > 0) {
                &&& events.len() == 1
                &&& events[0] matches FsEvent::User(Ok(Some(_)))
            } else {
                events.len() == 0
            }
        },
{
    lemma_fs_story(policy, platform, events);
    lemma_probe_story(policy, platform, events);
    if events.len() > 0 {
        lemma_fs_story(policy, platform, events.drop_last());
    }
}

/// The paths under `read_write` are taken up one by one, in their order, and
/// none is left out. A path is created exactly if it was found missing, and
/// handed over once it exists, exactly if there is an account to hand it to.
pub proof fn law_each_directory_in_its_turn<E>(
    policy: PolicyView,
    platform: Platform,
    events: Seq<FsEvent<E>>,
)
    requires
        platform != Platform::NonUnix,
        fs_admissible(policy, platform, events),
    ensures
        fs_run(policy, platform, events) is Ready ==> probed(events)
            == policy.filesystem.read_write.len(),
        fs_asked(fs_run(policy, platform, events)) matches Some(FsActionView::Probe(path)) ==> {
            &&& probed(events) < policy.filesystem.read_write.len()
            &&& path == policy.filesystem.read_write[probed(events) as int]
        },
        (fs_asked(fs_run(policy, platform, events)) matches Some(FsActionView::CreateDir(path))
            && path == policy.filesystem.read_write[probed(events) - 1]) <==> {
            &&& events.len() > 0
            &&& events.last() == FsEvent::<E>::Exists(false)
        },
        fs_asked(fs_run(policy, platform, events)) matches Some(FsActionView::CreateDir(_))
            ==> events.last() == FsEvent::<E>::Exists(false),
        (fs_asked(fs_run(policy, platform, events)) matches Some(
            FsActionView::SetOwner { path, .. },
        ) && path == policy.filesystem.read_write[probed(events) - 1]) <==> {
            &&& events.len() > 0
            &&& events.last() == FsEvent::<E>::Exists(true) || (
            events.last() matches FsEvent::Created(Ok(_)))
            &&& {
                ||| policy.process.run_as_user is Some && policy.process.run_as_user->0.len() > 0
                ||| policy.process.run_as_group is Some && policy.process.run_as_group->0.len() > 0
            }
        },
        fs_asked(fs_run(policy, platform, events)) matches Some(FsActionView::SetOwner { .. })
            ==> events.last() == FsEvent::<E>::Exists(true) || (
        events.last() matches FsEvent::Created(Ok(_))),
{
    lemma_fs_story(policy, platform, events);
    lemma_probe_story(policy, platform, events);
    if events.len() > 0 {
        lemma_fs_story(policy, platform, events.drop_last());
        lemma_probe_story(policy, platform, events.drop_last());
    }
}

/// Once the preparation has succeeded, each path under `read_write` belongs to
/// the configured user, by the id that was reported for it, and to the
/// configured group, by the id that was reported for that. Whichever of the two
/// is not configured was left as it was.
pub proof fn law_directories_belong_to_the_account<E>(
    policy: PolicyView,
    platform: Platform,
    events: Seq<FsEvent<E>>,
    j: int,
)
    requires
        platform != Platform::NonUnix,
        fs_admissible(policy, platform, events),
        fs_run(policy, platform, events) is Ready,
    ensures
        ({
            let user = policy.process.run_as_user is Some && policy.process.run_as_user->0.len()
                > 0;
            let group = policy.process.run_as_group is Some && policy.process.run_as_group->0.len()
                > 0;
            let changes = handed_over(policy, platform, events);
            let at: int = if user {
                1
            } else {
                0
            };
            &&& !user && !group ==> changes.len() == 0
            &&& user || group ==> changes.len() == policy.filesystem.read_write.len()
            &&& (user || group) && 0 <= j < policy.filesystem.read_write.len() ==> {
                let (path, uid, gid) = changes[j];
                &&& path == policy.filesystem.read_write[j]
                &&& uid is Some <==> user
                &&& gid is Some <==> group
                &&& user ==> events[0] == FsEvent::<E>::User(Ok(uid))
                &&& group ==> events[at] == FsEvent::<E>::Group(Ok(gid))
            }
        }),
{
    lemma_fs_story(policy, platform, events);
}

/// The preparation fails exactly where the last operation reported an error,
/// which is handed on as it came, or where a configured name is not known, which
/// is then named.
pub proof fn law_preparation_fails_exactly_with_its_reports<E>(
    policy: PolicyView,
    platform: Platform,
    events: Seq<FsEvent<E>>,
    error: E,
    name: Text,
)
    requires
        fs_admissible(policy, platform, events),
    ensures
        fs_run(policy, platform, events) == FsProgressView::Failed(ErrorView::Outside(error)) <==> {
            &&& events.len() > 0
            &&& match events.last() {
                FsEvent::User(Err(e)) => e == error,
                FsEvent::Group(Err(e)) => e == error,
                FsEvent::Created(Err(e)) => e == error,
                FsEvent::Owned(Err(e)) => e == error,
                _ => false,
            }
        },
        fs_run(policy, platform, events) == FsProgressView::<E>::Failed(
            ErrorView::UserNotFound(name),
        ) <==> {
            &&& events.len() > 0
            &&& events.last() == FsEvent::<E>::User(Ok(None))
            &&& policy.process.run_as_user == Some(name)
        },
        fs_run(policy, platform, events) == FsProgressView::<E>::Failed(
            ErrorView::GroupNotFound(name),
        ) <==> {
            &&& events.len() > 0
            &&& events.last() == FsEvent::<E>::Group(Ok(None))
            &&& policy.process.run_as_group == Some(name)
        },
        fs_run(policy, platform, events) matches FsProgressView::Failed(reason) ==> reason is Outside
            || reason is UserNotFound || reason is GroupNotFound,
{
    lemma_fs_story(policy, platform, events);
    if events.len() > 0 {
        lemma_fs_story(policy, platform, events.drop_last());
    }
}

/// Each operation is answered by a report on that operation, and by no other;
/// nothing is awaited once the preparation is over. Outside Unix it is over
/// before it has begun.
pub proof fn law_preparation_awaits_its_answer<E>(
    policy: PolicyView,
    platform: Platform,
    events: Seq<FsEvent<E>>,
    event: FsEvent<E>,
)
    requires
        fs_admissible(policy, platform, events),
    ensures
        fs_admissible(policy, platform, events.push(event)) <==> match fs_asked(
            fs_run(policy, platform, events),
        ) {
            Some(FsActionView::LookupUser(_)) => event is User,
            Some(FsActionView::LookupGroup(_)) => event is Group,
            Some(FsActionView::Probe(_)) => event is Exists,
            Some(FsActionView::CreateDir(_)) => event is Created,
            Some(FsActionView::SetOwner { .. }) => event is Owned,
            None => false,
        },
        platform == Platform::NonUnix ==> fs_run(policy, platform, events) is Ready
            && events.len() == 0,
{
    lemma_fs_story(policy, platform, events);
    if events.len() > 0 {
        lemma_fs_story(policy, platform, events.drop_last());
    }
    assert(events.push(event).drop_last() =~= events);
}

/// The start of the preparation, as it is carried out: on Unix a configured user
/// is looked up first, under the very name that the policy gives, and without
/// one a configured group; without either the first path is probed.
pub proof fn law_preparation_starts_with_the_account<E>(
    policy: SandboxPolicy,
    platform: Platform,
    progress: FsProgress<E>,
)
    requires
        call_ensures(prepare_filesystem::<E>, (&policy, platform), progress),
    ensures
        platform == Platform::NonUnix ==> progress is Ready,
        platform != Platform::NonUnix ==> {
            if policy.process.run_as_user matches Some(user) && user@.len() > 0 {
                &&& progress matches FsProgress::Perform(_, FsAction::LookupUser(name))
                &&& name@ == policy.process.run_as_user->0@
            } else if policy.process.run_as_group matches Some(group) && group@.len() > 0 {
                &&& progress matches FsProgress::Perform(_, FsAction::LookupGroup(name))
                &&& name@ == policy.process.run_as_group->0@
            } else if policy.filesystem.read_write@.len() > 0 {
                &&& progress matches FsProgress::Perform(_, FsAction::Probe(path))
                &&& path@ == policy.filesystem.read_write@[0]@
            } else {
                progress is Ready
            }
        },
{
    assert(policy@.filesystem.read_write == policy.filesystem.read_write.deep_view());
    if policy.filesystem.read_write@.len() > 0 {
        assert(policy.filesystem.read_write.deep_view()[0]
            == policy.filesystem.read_write@[0]@);
    }
}

} // verus!
