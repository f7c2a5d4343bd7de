//! What a run of the sandbox comes to.

use crate::error::ErrorView;
use crate::filesystem::{fs_failure, FsActionView, FsEvent, FsProgressView, FsStageView};
use crate::laws::filesystem::{
    directories_exist, fits, fs_admissible, fs_run, lemma_step_makes_directories, made,
    stage_action,
};
use crate::laws::load::{
    law_loaded_policy, law_loading_fails_exactly_with_its_reports, load_admissible, load_run,
};
use crate::load::{load_failure, LoadActionView, LoadEventView, LoadProgressView, Loader};
use crate::model::{
    awaits, begin, child_launch, inv, next, ssh_launch, time_limit, tls_dir, ActionView,
    EventView, RequestView, StageView, StateView, TIMEOUT_EXIT_CODE,
};
use crate::network::{bind_address, session_proxy_url, NetnsView, Platform};
use crate::policy::PolicyView;
use crate::supervisor::{Action, Event, Supervisor};
use crate::text::Text;
use vstd::prelude::*;

verus! {

/// Where a run stands after a series of events, and what it asks for.
pub open spec fn run<E>(request: RequestView, events: Seq<EventView<E>>) -> (
    StateView,
    ActionView<E>,
)
    decreases events.len(),
{
    if events.len() == 0 {
        begin(request)
    } else {
        next(run(request, events.drop_last()).0, events.last())
    }
}

/// Whether each event of a series reports on the operation that was asked for.
pub open spec fn admissible<E>(request: RequestView, events: Seq<EventView<E>>) -> bool
    decreases events.len(),
{
    events.len() == 0 || {
        &&& admissible(request, events.drop_last())
        &&& awaits(run(request, events.drop_last()).0, events.last())
    }
}

/// The events of a run that report on loading the policy.
pub open spec fn load_events<E>(events: Seq<EventView<E>>) -> Seq<LoadEventView<E>>
    decreases events.len(),
{
    if events.len() == 0 {
        Seq::empty()
    } else {
        match events.last() {
            EventView::Load(e) => load_events(events.drop_last()).push(e),
            _ => load_events(events.drop_last()),
        }
    }
}

/// The events of a run that report on preparing the filesystem.
pub open spec fn fs_events<E>(events: Seq<EventView<E>>) -> Seq<FsEvent<E>>
    decreases events.len(),
{
    if events.len() == 0 {
        Seq::empty()
    } else {
        match events.last() {
            EventView::Prepare(e) => fs_events(events.drop_last()).push(e),
            _ => fs_events(events.drop_last()),
        }
    }
}

/// The provider's environment, as far as it could be fetched.
pub open spec fn fetched_env<E>(events: Seq<EventView<E>>) -> Seq<(Text, Text)>
    decreases events.len(),
{
    if events.len() == 0 {
        Seq::empty()
    } else {
        match events.last() {
            EventView::EnvFetched(Some(env)) => env,
            EventView::EnvFetched(None) => Seq::empty(),
            _ => fetched_env(events.drop_last()),
        }
    }
}

/// The network namespace, as far as one could be created.
pub open spec fn created_netns<E>(events: Seq<EventView<E>>) -> Option<NetnsView>
    decreases events.len(),
{
    if events.len() == 0 {
        None
    } else {
        match events.last() {
            EventView::NetnsCreated(netns) => netns,
            _ => created_netns(events.drop_last()),
        }
    }
}

/// Whether the CA's certificates were written.
pub open spec fn certified<E>(events: Seq<EventView<E>>) -> bool {
    events.contains(EventView::CaWritten(true))
}

/// The policy as it was loaded.
pub open spec fn loaded_policy<E>(request: RequestView, events: Seq<EventView<E>>) -> PolicyView {
    load_run(request.sources, load_events(events))->policy
}

/// The policy that a run enforces: the one that was loaded, with the directory
/// of the CA's certificates readable where they were written.
pub open spec fn enforced_policy<E>(
    request: RequestView,
    events: Seq<EventView<E>>,
) -> PolicyView {
    if certified(events) {
        loaded_policy(request, events).with_readable(tls_dir())
    } else {
        loaded_policy(request, events)
    }
}

/// The error of an outside operation that ends a run, if an event reports one.
pub open spec fn fatal<E>(event: EventView<E>) -> Option<E> {
    match event {
        EventView::Load(e) => load_failure(e),
        EventView::Prepare(e) => fs_failure(e),
        EventView::ProxyStarted(Err(e)) => Some(e),
        EventView::SshStarted(Err(e)) => Some(e),
        EventView::ChildSpawned(Err(e)) => Some(e),
        EventView::ChildExited(Err(e)) => Some(e),
        EventView::Killed(Err(e)) => Some(e),
        _ => None,
    }
}

/// Whether an event reports a failure that a run gets along with: no
/// environment from the provider, no CA, no network namespace.
pub open spec fn tolerable<E>(event: EventView<E>) -> bool {
    ||| event == EventView::<E>::EnvFetched(None)
    ||| event == EventView::<E>::CaGenerated(false)
    ||| event == EventView::<E>::CaWritten(false)
    ||| event == EventView::<E>::NetnsCreated(None)
}

/// Whether a stage comes after the filesystem is ready.
pub open spec fn prepared(stage: StageView) -> bool {
    !(stage is Loading || stage is FetchingEnv || stage is Preparing || stage is Finished)
}

/// Whether a stage comes after the proxy, where there is one.
pub open spec fn behind_proxy(stage: StageView) -> bool {
    stage is StartingReaper || stage is StartingSsh || stage is SpawningChild || stage is Waiting
        || stage is Killing
}

/// Whether the creation of a network namespace was reported on.
pub open spec fn tried_netns<E>(events: Seq<EventView<E>>) -> bool {
    exists|netns: Option<NetnsView>| #[trigger] events.contains(EventView::NetnsCreated(netns))
}

/// Whether the generation of a CA was reported on, and where it succeeded, the
/// writing of its certificates too.
pub open spec fn tried_ca<E>(events: Seq<EventView<E>>) -> bool {
    ||| events.contains(EventView::CaGenerated(false))
    ||| events.contains(EventView::CaGenerated(true)) && events.contains(
        EventView::CaWritten(true),
    )
    ||| events.contains(EventView::CaGenerated(true)) && events.contains(
        EventView::CaWritten(false),
    )
}

/// Whether a stage comes after the reaper, where there is one.
pub open spec fn watched(stage: StageView) -> bool {
    stage is StartingSsh || stage is SpawningChild || stage is Waiting || stage is Killing
}

/// How many directories the run has to prepare, as far as it is known.
pub open spec fn directories(s: StateView) -> nat {
    match s.policy {
        Some(policy) => policy.writable().len(),
        None => 0,
    }
}

/// How far along a run is. Every stage has its place, in the order in which
/// runs go through them.
pub open spec fn place(s: StateView) -> nat {
    let n = directories(s);
    match s.stage {
        StageView::Loading(Loader::LoadingFiles) => 0,
        StageView::Loading(Loader::Fetching) => 0,
        StageView::Loading(Loader::QueryingConfig) => 1,
        StageView::Loading(Loader::BuildingEngine) => 1,
        StageView::Loading(Loader::Converting { .. }) => 2,
        StageView::FetchingEnv => 3,
        StageView::Preparing(preparer) => match preparer.stage {
            FsStageView::User => 4,
            FsStageView::Group => 5,
            FsStageView::Probing(i) => 6 + 3 * i,
            FsStageView::Creating(i) => 7 + 3 * i,
            FsStageView::Owning(i) => 8 + 3 * i,
        },
        StageView::GeneratingCa => 6 + 3 * n,
        StageView::WritingCa => 7 + 3 * n,
        StageView::CreatingNetns => 8 + 3 * n,
        StageView::StartingProxy => 9 + 3 * n,
        StageView::StartingReaper => 10 + 3 * n,
        StageView::StartingSsh => 11 + 3 * n,
        StageView::SpawningChild => 12 + 3 * n,
        StageView::Waiting => 13 + 3 * n,
        StageView::Killing => 14 + 3 * n,
        StageView::Finished => 15 + 3 * n,
    }
}

proof fn lemma_contains<T>(s: Seq<T>, x: T)
    requires
        s.len() > 0,
    ensures
        s.contains(x) <==> s.drop_last().contains(x) || s.last() == x,
{
    if s.drop_last().contains(x) {
        let i = choose|i: int| 0 <= i < s.drop_last().len() && s.drop_last()[i] == x;
        assert(s[i] == x);
    }
    if s.contains(x) {
        let i = choose|i: int| 0 <= i < s.len() && s[i] == x;
        if i < s.len() - 1 {
            assert(s.drop_last()[i] == x);
        }
    }
    if s.last() == x {
        assert(s[s.len() - 1] == x);
    }
}

/// Every step takes a run further along, keeps what is wanted, and keeps the
/// invariant.
pub proof fn law_every_step_is_progress<E>(s: StateView, event: EventView<E>)
    requires
        inv(s),
        awaits(s, event),
    ensures
        inv(next(s, event).0),
        place(s) < place(next(s, event).0),
        next(s, event).0.request == s.request,
        s.policy is Some ==> directories(next(s, event).0) == directories(s),
{
}

proof fn lemma_run<E>(request: RequestView, events: Seq<EventView<E>>)
    requires
        admissible(request, events),
    ensures
        inv(run(request, events).0),
        run(request, events).0.request == request,
        events.len() <= place(run(request, events).0),
    decreases events.len(),
{
    if events.len() > 0 {
        lemma_run(request, events.drop_last());
        law_every_step_is_progress(run(request, events.drop_last()).0, events.last());
    }
}

/// A run ends: it takes at most fifteen operations, and three more for each
/// directory that the policy lets the child write to.
pub proof fn law_runs_are_bounded<E>(request: RequestView, events: Seq<EventView<E>>)
    requires
        admissible(request, events),
    ensures
        events.len() <= 15 + 3 * directories(run(request, events).0),
{
    lemma_run(request, events);
}

/// What the events so far say of the parts of a run that is not over.
spec fn parts_story<E>(request: RequestView, events: Seq<EventView<E>>) -> bool {
    let (s, action) = run(request, events);
    let loading = load_run(request.sources, load_events(events));
    let policy = loaded_policy(request, events);
    let preparing = fs_run(policy, request.platform, fs_events(events));
    &&& load_admissible(request.sources, load_events(events))
    &&& s.stage matches StageView::Loading(loader) ==> {
        &&& loading matches LoadProgressView::Perform(l, a)
        &&& l == loader
        &&& action == ActionView::<E>::Load(a)
        &&& fs_events(events).len() == 0
    }
    &&& !(s.stage is Loading) && !(s.stage is Finished) ==> {
        &&& loading == LoadProgressView::<E>::Loaded { policy, engine: s.engine }
        &&& s.loaded() == if s.tls {
            policy.with_readable(tls_dir())
        } else {
            policy
        }
        &&& fs_admissible(policy, request.platform, fs_events(events))
    }
    &&& s.stage is FetchingEnv ==> fs_events(events).len() == 0
    &&& s.stage matches StageView::Preparing(preparer) ==> {
        &&& preparing matches FsProgressView::Perform(p, a)
        &&& p == preparer
        &&& action == ActionView::<E>::Prepare(a)
    }
    &&& prepared(s.stage) ==> preparing is Ready
}

proof fn lemma_parts<E>(request: RequestView, events: Seq<EventView<E>>)
    requires
        admissible(request, events),
    ensures
        parts_story(request, events),
    decreases events.len(),
{
    if events.len() > 0 {
        let before = events.drop_last();
        lemma_run(request, before);
        lemma_parts(request, before);
        match events.last() {
            EventView::Load(e) => {
                assert(load_events(events).drop_last() =~= load_events(before));
            },
            EventView::Prepare(e) => {
                assert(fs_events(events).drop_last() =~= fs_events(before));
            },
            _ => {},
        }
    }
}

/// What the events so far say of what a run has set up.
spec fn setup_story<E>(request: RequestView, events: Seq<EventView<E>>) -> bool {
    let s = run(request, events).0;
    !(s.stage is Finished) ==> {
        &&& s.tls == certified(events)
        &&& s.netns == created_netns(events)
        &&& s.env == fetched_env(events)
        &&& behind_proxy(s.stage) && s.loaded().proxied() ==> events.contains(
            EventView::ProxyStarted(Ok(())),
        )
        &&& watched(s.stage) && s.linux() ==> events.contains(EventView::ReaperStarted)
        &&& (s.stage is StartingProxy || behind_proxy(s.stage)) && s.linux()
            && s.loaded().proxied() ==> tried_netns(events)
        &&& (s.stage is CreatingNetns || s.stage is StartingProxy || behind_proxy(s.stage))
            && s.loaded().proxied() ==> tried_ca(events)
        &&& s.stage is WritingCa ==> events.len() > 0 && events.last() == EventView::<
            E,
        >::CaGenerated(true)
        &&& s.stage is Killing ==> events.len() > 0 && events.last() == EventView::<E>::TimedOut
    }
}

proof fn lemma_setup<E>(request: RequestView, events: Seq<EventView<E>>)
    requires
        admissible(request, events),
    ensures
        setup_story(request, events),
    decreases events.len(),
{
    if events.len() > 0 {
        let before = events.drop_last();
        lemma_run(request, before);
        lemma_setup(request, before);
        assert forall|x: EventView<E>| #[trigger]
            events.contains(x) <==> before.contains(x) || events.last() == x by {
            lemma_contains(events, x);
        }
        if tried_netns(before) {
            let netns = choose|netns: Option<NetnsView>| #[trigger]
                before.contains(EventView::NetnsCreated(netns));
            assert(events.contains(EventView::NetnsCreated(netns)));
        }
        match events.last() {
            EventView::ProxyStarted(Ok(started)) => {
                assert(started == ());
                assert(events.contains(EventView::ProxyStarted(Ok(()))));
            },
            EventView::NetnsCreated(netns) => {
                assert(events.contains(EventView::NetnsCreated(netns)));
            },
            EventView::CaWritten(written) => {
                assert(before.contains(EventView::CaGenerated(true)));
            },
            _ => {},
        }
    }
}

/// Behind a proxied policy neither the child nor an SSH server is started
/// unless the proxy is running.
pub proof fn law_nothing_runs_before_its_proxy<E>(
    request: RequestView,
    events: Seq<EventView<E>>,
)
    requires
        admissible(request, events),
    ensures
        run(request, events).1 matches ActionView::SpawnChild(launch) && launch.policy.proxied()
            ==> events.contains(EventView::ProxyStarted(Ok(()))),
        run(request, events).1 matches ActionView::StartSsh(launch) && launch.policy.proxied()
            ==> events.contains(EventView::ProxyStarted(Ok(()))),
{
    lemma_run(request, events);
    lemma_setup(request, events);
}

/// On Linux the reaper is running before the child or an SSH server is started.
/// Behind a proxied policy the creation of a namespace comes before the proxy,
/// the SSH server and the child.
pub proof fn law_reaper_and_namespace_come_first<E>(
    request: RequestView,
    events: Seq<EventView<E>>,
)
    requires
        admissible(request, events),
        request.platform == Platform::Linux,
    ensures
        run(request, events).1 is SpawnChild || run(request, events).1 is StartSsh
            ==> events.contains(EventView::ReaperStarted),
        run(request, events).1 is StartProxy ==> tried_netns(events),
        run(request, events).1 matches ActionView::StartSsh(launch) && launch.policy.proxied()
            ==> tried_netns(events),
        run(request, events).1 matches ActionView::SpawnChild(launch) && launch.policy.proxied()
            ==> tried_netns(events),
{
    lemma_run(request, events);
    lemma_setup(request, events);
}

/// Nothing but the policy's loading, the provider's environment and the
/// filesystem's own preparation is taken up before the filesystem is ready.
pub proof fn law_filesystem_is_ready_first<E>(request: RequestView, events: Seq<EventView<E>>)
    requires
        admissible(request, events),
    ensures
        match run(request, events).1 {
            ActionView::Load(_)
            | ActionView::FetchProviderEnv { .. }
            | ActionView::Prepare(_)
            | ActionView::Finish(_) => true,
            _ => {
                &&& load_admissible(request.sources, load_events(events))
                &&& load_run(request.sources, load_events(events)) is Loaded
                &&& fs_admissible(
                    loaded_policy(request, events),
                    request.platform,
                    fs_events(events),
                )
                &&& fs_run(
                    loaded_policy(request, events),
                    request.platform,
                    fs_events(events),
                ) is Ready
            },
        },
{
    lemma_run(request, events);
    lemma_parts(request, events);
}

/// Whether a run is true of a filesystem from which nothing vanishes. `worlds`
/// holds the paths that exist at the start and after each event.
pub open spec fn run_truthful<E>(
    request: RequestView,
    events: Seq<EventView<E>>,
    worlds: Seq<Set<Text>>,
) -> bool
    decreases events.len(),
{
    &&& worlds.len() == events.len() + 1
    &&& events.len() > 0 ==> {
        let before = worlds[events.len() - 1];
        &&& run_truthful(request, events.drop_last(), worlds.drop_last())
        &&& before.subset_of(worlds.last())
        &&& match (run(request, events.drop_last()).1, events.last()) {
            (ActionView::Prepare(action), EventView::Prepare(event)) => fits(
                action,
                event,
                before,
                worlds.last(),
            ),
            _ => true,
        }
    }
}

/// What the events so far say of the directories that exist.
spec fn directories_story<E>(
    request: RequestView,
    events: Seq<EventView<E>>,
    now: Set<Text>,
) -> bool {
    let (s, action) = run(request, events);
    &&& s.stage matches StageView::Preparing(preparer) ==> {
        &&& action == ActionView::<E>::Prepare(stage_action(s.loaded(), preparer))
        &&& directories_exist(s.loaded(), made(preparer.stage), now)
    }
    &&& prepared(s.stage) ==> directories_exist(s.loaded(), s.loaded().writable().len(), now)
}

proof fn lemma_directories<E>(
    request: RequestView,
    events: Seq<EventView<E>>,
    worlds: Seq<Set<Text>>,
)
    requires
        request.platform != Platform::NonUnix,
        admissible(request, events),
        run_truthful(request, events, worlds),
    ensures
        directories_story(request, events, worlds.last()),
    decreases events.len(),
{
    if events.len() > 0 {
        let s = run(request, events.drop_last()).0;
        let before = worlds[events.len() - 1];
        lemma_run(request, events.drop_last());
        lemma_directories(request, events.drop_last(), worlds.drop_last());
        assert(worlds.drop_last().last() == before);
        match events.last() {
            EventView::Prepare(event) => {
                lemma_step_makes_directories(
                    s.loaded(),
                    s.stage->Preparing_0,
                    event,
                    before,
                    worlds.last(),
                );
            },
            _ => {},
        }
    }
}

/// Once a run is past the preparation of the filesystem, on Unix, every directory
/// that the policy lets the child write to exists, whatever existed before and
/// whatever else comes to exist meanwhile. So the child and the SSH sessions find
/// them all.
pub proof fn law_child_finds_its_directories<E>(
    request: RequestView,
    events: Seq<EventView<E>>,
    worlds: Seq<Set<Text>>,
    path: Text,
)
    requires
        request.platform != Platform::NonUnix,
        admissible(request, events),
        run_truthful(request, events, worlds),
    ensures
        run(request, events).1 matches ActionView::SpawnChild(launch)
            && launch.policy.writable().contains(path) ==> worlds.last().contains(path),
        run(request, events).1 matches ActionView::StartSsh(launch)
            && launch.policy.writable().contains(path) ==> worlds.last().contains(path),
{
    lemma_run(request, events);
    lemma_directories(request, events, worlds);
    let writable = run(request, events).0.loaded().writable();
    if writable.contains(path) {
        let j = choose|j: int| 0 <= j < writable.len() && writable[j] == path;
        assert(writable[j] == path);
    }
}

/// Whether no name occurs twice in an environment.
pub open spec fn distinct_names(env: Seq<(Text, Text)>) -> bool {
    forall|i: int, j: int|
        0 <= i < j < env.len() ==> (#[trigger] env[i]).0 != (#[trigger] env[j]).0
}

/// The provider's environment is asked for once, as soon as the policy is loaded,
/// and exactly where there is a server to ask.
pub proof fn law_environment_comes_from_the_server<E>(
    request: RequestView,
    events: Seq<EventView<E>>,
)
    requires
        admissible(request, events),
    ensures
        run(request, events).1 is FetchProviderEnv <==> {
            &&& request.sources.has_server()
            &&& events.len() > 0
            &&& events.last() is Load
            &&& load_run(request.sources, load_events(events)) is Loaded
        },
        run(request, events).1 matches ActionView::FetchProviderEnv { endpoint, sandbox_id } ==> {
            &&& request.sources.navigator_endpoint == Some(endpoint)
            &&& request.sources.sandbox_id == Some(sandbox_id)
        },
{
    lemma_run(request, events);
    lemma_parts(request, events);
    if events.len() > 0 {
        lemma_run(request, events.drop_last());
        lemma_parts(request, events.drop_last());
    }
}

/// Behind a proxied policy the CA comes before the namespace, the proxy, the SSH
/// server and the child. Its certificates are written once it is generated, to
/// the directory that the policy then makes readable.
pub proof fn law_certificates_come_first<E>(request: RequestView, events: Seq<EventView<E>>)
    requires
        admissible(request, events),
    ensures
        run(request, events).1 matches ActionView::WriteCaFiles { dir } ==> {
            &&& dir == tls_dir()
            &&& events.len() > 0
            &&& events.last() == EventView::<E>::CaGenerated(true)
        },
        run(request, events).1 is CreateNetns || run(request, events).1 is StartProxy
            ==> tried_ca(events),
        run(request, events).1 matches ActionView::StartSsh(launch) && launch.policy.proxied()
            ==> tried_ca(events),
        run(request, events).1 matches ActionView::SpawnChild(launch) && launch.policy.proxied()
            ==> tried_ca(events),
{
    lemma_run(request, events);
    lemma_setup(request, events);
}

/// If no name occurs twice in what was fetched, none does in the environment of
/// the child or of an SSH session.
pub proof fn law_environment_names_stay_distinct<E>(
    request: RequestView,
    events: Seq<EventView<E>>,
)
    requires
        admissible(request, events),
        distinct_names(fetched_env(events)),
    ensures
        run(request, events).1 matches ActionView::SpawnChild(launch) ==> distinct_names(
            launch.env,
        ),
        run(request, events).1 matches ActionView::StartSsh(launch) ==> distinct_names(launch.env),
{
    lemma_run(request, events);
    lemma_setup(request, events);
}

/// The child is what the caller asked for. It runs under the policy that was
/// loaded, in the environment that was fetched. Where the CA's certificates were
/// written it is told of them, and their directory is readable. Where a namespace
/// was created it enters it.
pub proof fn law_child_is_what_was_asked_for<E>(
    request: RequestView,
    events: Seq<EventView<E>>,
)
    requires
        admissible(request, events),
    ensures
        run(request, events).1 matches ActionView::SpawnChild(launch) ==> {
            &&& seq![launch.program] + launch.args == request.command
            &&& launch.workdir == request.workdir
            &&& launch.interactive == request.interactive
            &&& launch.policy == enforced_policy(request, events)
            &&& launch.netns == (created_netns(events) is Some)
            &&& launch.ca_files == certified(events)
            &&& launch.env == fetched_env(events)
        },
{
    lemma_run(request, events);
    lemma_parts(request, events);
    lemma_setup(request, events);
    let (s, action) = run(request, events);
    if action is SpawnChild {
        assert(action == ActionView::<E>::SpawnChild(child_launch(s)));
        assert(seq![request.command.first()] + request.command.skip(1) =~= request.command);
    }
}

/// The proxy is started only for a proxied policy with an engine, and with the
/// configuration of that policy. It terminates TLS exactly where the CA's
/// certificates were written, and keeps the server reachable. It is bound to the
/// host's end of the namespace's link exactly where a namespace was created.
pub proof fn law_proxy_is_what_the_policy_wants<E>(
    request: RequestView,
    events: Seq<EventView<E>>,
)
    requires
        admissible(request, events),
    ensures
        run(request, events).1 matches ActionView::StartProxy(launch) ==> {
            let policy = loaded_policy(request, events);
            &&& load_run(request.sources, load_events(events)) == LoadProgressView::<E>::Loaded {
                policy,
                engine: true,
            }
            &&& policy.proxied()
            &&& policy.network.proxy == Some(launch.config)
            &&& launch.bind == bind_address(created_netns(events), policy.network.proxy)
            &&& launch.control_plane == request.sources.navigator_endpoint
            &&& launch.tls == certified(events)
        },
{
    lemma_run(request, events);
    lemma_parts(request, events);
    lemma_setup(request, events);
}

/// An SSH server is started only where the caller wants one, and then before the
/// child. It listens where the caller wants it, with the caller's secret (an
/// empty one, if none was given) and the caller's tolerance. Its sessions start
/// in the caller's directory and run under the policy that was loaded, in the
/// environment that was fetched. Where the CA's certificates were written they
/// are told of them. They enter the namespace that was created, and are told of
/// the proxy that is reached from there.
pub proof fn law_ssh_server_is_what_was_asked_for<E>(
    request: RequestView,
    events: Seq<EventView<E>>,
)
    requires
        admissible(request, events),
    ensures
        run(request, events).1 matches ActionView::StartSsh(launch) ==> {
            &&& request.ssh_listen_addr == Some(launch.listen_addr)
            &&& launch.policy == enforced_policy(request, events)
            &&& launch.workdir == request.workdir
            &&& launch.secret == match request.ssh_handshake_secret {
                Some(secret) => secret,
                None => Seq::empty(),
            }
            &&& launch.skew_secs == request.ssh_handshake_skew_secs
            &&& launch.netns_fd == match created_netns(events) {
                Some(ns) => ns.ns_fd,
                None => None,
            }
            &&& launch.proxy_url == session_proxy_url(
                request.platform,
                created_netns(events),
                loaded_policy(request, events).network,
            )
            &&& launch.ca_files == certified(events)
            &&& launch.env == fetched_env(events)
        },
        run(request, events).1 is SpawnChild && request.ssh_listen_addr is Some
            ==> events.len() > 0 && events.last() == EventView::<E>::SshStarted(Ok(())),
{
    lemma_run(request, events);
    lemma_parts(request, events);
    lemma_setup(request, events);
    if events.len() > 0 {
        lemma_run(request, events.drop_last());
        match events.last() {
            EventView::SshStarted(Ok(started)) => {
                assert(started == ());
            },
            _ => {},
        }
    }
}

/// SSH sessions are confined as the child is: they get the same policy, the
/// same environment and the same certificates, start in the same directory, and
/// enter a namespace only if the child does.
pub proof fn law_sessions_are_confined_like_the_child<E>(s: StateView)
    requires
        inv(s),
        s.stage is StartingSsh,
    ensures
        next::<E>(s, EventView::SshStarted(Ok(()))).1 matches ActionView::SpawnChild(child) && {
            let session = ssh_launch(s);
            &&& child.policy == session.policy
            &&& child.env == session.env
            &&& child.workdir == session.workdir
            &&& child.ca_files == session.ca_files
            &&& session.netns_fd is Some ==> child.netns
            &&& session.proxy_url is Some && s.linux() ==> child.netns
        },
{
}

/// A run does without the provider's environment, without a CA and without a
/// namespace: such a failure does not end it, unless it is at the proxy next and
/// the policy or the engine that the proxy needs is missing anyway.
pub proof fn law_tolerable_failures_do_not_end_a_run<E>(s: StateView, event: EventView<E>)
    requires
        inv(s),
        awaits(s, event),
        tolerable(event),
    ensures
        next(s, event).1 matches ActionView::Finish(result) ==> {
            &&& s.loaded().proxied()
            &&& s.loaded().network.proxy is None && result == Err::<i32, ErrorView<E>>(
                ErrorView::ProxyConfigMissing,
            ) || !s.engine && result == Err::<i32, ErrorView<E>>(ErrorView::EngineMissing)
        },
        s.loaded().network.proxy is Some && s.engine ==> !(next(s, event).1 is Finish),
{
}

/// What a run ends with. Success is the child's exit code, or the code for a
/// timeout after the child was killed for one. A failure is the error of the
/// last operation, or one of the library's own for its own reason; the identity
/// cache is never what is missing.
pub proof fn law_result_of_a_run<E>(request: RequestView, events: Seq<EventView<E>>)
    requires
        admissible(request, events),
    ensures
        run(request, events).1 matches ActionView::Finish(result) ==> match result {
            Ok(code) => {
                ||| events.len() > 0 && events.last() == EventView::<E>::ChildExited(Ok(code))
                ||| {
                    &&& code == TIMEOUT_EXIT_CODE
                    &&& request.timeout_secs > 0
                    &&& events.len() > 1
                    &&& events.last() == EventView::<E>::Killed(Ok(()))
                    &&& events[events.len() - 2] == EventView::<E>::TimedOut
                }
            },
            Err(ErrorView::Outside(e)) => events.len() > 0 && fatal(events.last()) == Some(e),
            Err(ErrorView::NoCommand) => request.command.len() == 0 && events.len() == 0,
            Err(ErrorView::PolicyRequired) => {
                &&& !request.sources.has_files()
                &&& !request.sources.has_server()
                &&& events.len() == 0
            },
            Err(ErrorView::UserNotFound(name)) => {
                &&& events.len() > 0
                &&& loaded_policy(request, events).user_name() == Some(name)
                &&& events.last() == EventView::<E>::Prepare(FsEvent::User(Ok(None)))
            },
            Err(ErrorView::GroupNotFound(name)) => {
                &&& events.len() > 0
                &&& loaded_policy(request, events).group_name() == Some(name)
                &&& events.last() == EventView::<E>::Prepare(FsEvent::Group(Ok(None)))
            },
            Err(ErrorView::ProxyConfigMissing) => {
                &&& loaded_policy(request, events).proxied()
                &&& loaded_policy(request, events).network.proxy is None
                &&& !request.sources.has_files()
            },
            Err(ErrorView::EngineMissing) => {
                &&& loaded_policy(request, events).proxied()
                &&& loaded_policy(request, events).network.proxy is Some
                &&& load_run(request.sources, load_events(events))
                    == LoadProgressView::<E>::Loaded {
                    policy: loaded_policy(request, events),
                    engine: false,
                }
                &&& !request.sources.has_files()
            },
            Err(ErrorView::CacheMissing) => false,
        },
    decreases events.len(),
{
    if events.len() > 0 {
        let before = events.drop_last();
        lemma_run(request, before);
        lemma_parts(request, before);
        lemma_setup(request, before);
        lemma_parts(request, events);
        if load_run(request.sources, load_events(before)) is Loaded {
            law_loaded_policy(request.sources, load_events(before));
        }
        match events.last() {
            EventView::Load(e) => {
                assert(load_events(events).drop_last() =~= load_events(before));
            },
            EventView::Killed(Ok(killed)) => {
                assert(killed == ());
                assert(before.last() == events[events.len() - 2]);
            },
            _ => {},
        }
    }
}

/// An error that ends a run does so at once: the run asks for nothing more and
/// returns that error.
pub proof fn law_fatal_errors_are_returned<E>(s: StateView, event: EventView<E>)
    requires
        inv(s),
        awaits(s, event),
    ensures
        fatal(event) matches Some(e) ==> next(s, event).1 == ActionView::<E>::Finish(
            Err(ErrorView::Outside(e)),
        ),
{
}

/// The child's exit code is what the run returns. A child whose time has run out
/// is killed, and the run returns the code for a timeout.
pub proof fn law_exit_codes_are_returned<E>(s: StateView, event: EventView<E>)
    requires
        inv(s),
        awaits(s, event),
    ensures
        event matches EventView::ChildExited(Ok(code)) ==> next(s, event).1 == ActionView::<
            E,
        >::Finish(Ok(code)),
        event is TimedOut ==> next(s, event).1 == ActionView::<E>::Kill,
        event matches EventView::Killed(Ok(_)) ==> next(s, event).1 == ActionView::<E>::Finish(
            Ok(TIMEOUT_EXIT_CODE),
        ),
{
}

/// Whether the proxy is what comes after an event: on Linux after its namespace,
/// elsewhere after the CA.
pub open spec fn leads_to_proxy<E>(s: StateView, event: EventView<E>) -> bool {
    if s.linux() {
        event is NetnsCreated
    } else {
        event == EventView::<E>::CaGenerated(false) || event is CaWritten
    }
}

/// A run is refused where what it needs is missing: a source for the policy, the
/// configured user, the configured group, and for a proxy its configuration or
/// an engine. Where a proxy has both, it is started.
pub proof fn law_refusals_are_owed<E>(
    request: RequestView,
    s: StateView,
    event: EventView<E>,
)
    requires
        inv(s),
        awaits(s, event),
    ensures
        request.command.len() > 0 && !request.sources.has_files()
            && !request.sources.has_server() ==> begin::<E>(request).1 == ActionView::<E>::Finish(
            Err(ErrorView::PolicyRequired),
        ),
        event == EventView::<E>::Prepare(FsEvent::User(Ok(None))) ==> next(s, event).1
            == ActionView::<E>::Finish(Err(ErrorView::UserNotFound(s.loaded().user_name()->0))),
        event == EventView::<E>::Prepare(FsEvent::Group(Ok(None))) ==> next(s, event).1
            == ActionView::<E>::Finish(Err(ErrorView::GroupNotFound(s.loaded().group_name()->0))),
        leads_to_proxy(s, event) ==> match (s.loaded().network.proxy, s.engine) {
            (None, _) => next(s, event).1 == ActionView::<E>::Finish(
                Err(ErrorView::ProxyConfigMissing),
            ),
            (Some(_), false) => next(s, event).1 == ActionView::<E>::Finish(
                Err(ErrorView::EngineMissing),
            ),
            (Some(_), true) => next(s, event).1 is StartProxy,
        },
{
}

/// Without a command a run is over before it has begun.
pub proof fn law_no_command_no_run<E>(request: RequestView, events: Seq<EventView<E>>)
    requires
        request.command.len() == 0,
        admissible(request, events),
    ensures
        events.len() == 0,
        run(request, events).1 == ActionView::<E>::Finish(Err(ErrorView::NoCommand)),
    decreases events.len(),
{
    if events.len() > 0 {
        law_no_command_no_run(request, events.drop_last());
    }
}

/// The child is killed only when a limit was set and has run out. Without a
/// limit the run waits for the child to exit.
pub proof fn law_only_a_limit_kills<E>(request: RequestView, events: Seq<EventView<E>>)
    requires
        admissible(request, events),
    ensures
        run(request, events).1 is Kill ==> request.timeout_secs > 0 && events.len() > 0
            && events.last() == EventView::<E>::TimedOut,
        run(request, events).1 matches ActionView::Wait { entrypoint_pid, timeout_secs } ==> {
            &&& timeout_secs == time_limit(request.timeout_secs)
            &&& events.len() > 0
            &&& events.last() == EventView::<E>::ChildSpawned(Ok(entrypoint_pid))
        },
{
    lemma_run(request, events);
    lemma_setup(request, events);
}

/// A run whose policy wants no proxy sets up nothing of the network.
pub proof fn law_unproxied_runs_leave_the_network_alone<E>(
    request: RequestView,
    events: Seq<EventView<E>>,
)
    requires
        admissible(request, events),
        load_run(request.sources, load_events(events)) is Loaded,
        !loaded_policy(request, events).proxied(),
    ensures
        !(run(request, events).1 is GenerateCa),
        !(run(request, events).1 is WriteCaFiles),
        !(run(request, events).1 is CreateNetns),
        !(run(request, events).1 is StartProxy),
{
    lemma_run(request, events);
    lemma_parts(request, events);
}

/// Whether the filesystem has just become ready: the policy is loaded, the
/// provider's environment is out of the way, and nothing is left to prepare.
pub open spec fn just_ready<E>(request: RequestView, events: Seq<EventView<E>>) -> bool {
    &&& events.len() > 0
    &&& load_run(request.sources, load_events(events)) is Loaded
    &&& fs_run(loaded_policy(request, events), request.platform, fs_events(events)) is Ready
    &&& match events.last() {
        EventView::Load(_) => request.sources.sandbox_id is None
            || request.sources.navigator_endpoint is None,
        EventView::EnvFetched(_) => true,
        EventView::Prepare(_) => true,
        _ => false,
    }
}

/// Whether the CA has just been dealt with, one way or the other.
pub open spec fn ca_settled<E>(events: Seq<EventView<E>>) -> bool {
    events.len() > 0 && match events.last() {
        EventView::CaGenerated(generated) => !generated,
        EventView::CaWritten(_) => true,
        _ => false,
    }
}

/// Whether the network namespace has just been dealt with, where there can be
/// one.
pub open spec fn netns_settled<E>(request: RequestView, events: Seq<EventView<E>>) -> bool {
    if request.platform == Platform::Linux {
        events.len() > 0 && events.last() is NetnsCreated
    } else {
        ca_settled(events)
    }
}

/// Whether the network has just been dealt with: behind a proxied policy the
/// proxy was started, otherwise the filesystem is ready.
pub open spec fn network_settled<E>(request: RequestView, events: Seq<EventView<E>>) -> bool {
    ||| events.len() > 0 && (events.last() matches EventView::ProxyStarted(Ok(_)))
    ||| just_ready(request, events) && !(loaded_policy(request, events).network.mode is Proxy)
}

/// Whether the reaper has just been dealt with.
pub open spec fn reaper_settled<E>(request: RequestView, events: Seq<EventView<E>>) -> bool {
    if request.platform == Platform::Linux {
        events.len() > 0 && events.last() is ReaperStarted
    } else {
        network_settled(request, events)
    }
}

/// Whether the SSH server has just been dealt with.
pub open spec fn ssh_settled<E>(request: RequestView, events: Seq<EventView<E>>) -> bool {
    if request.ssh_listen_addr is Some {
        events.len() > 0 && (events.last() matches EventView::SshStarted(Ok(_)))
    } else {
        reaper_settled(request, events)
    }
}

/// What the last step of a run starts from, and how the parts of the run carry
/// over.
proof fn lemma_last_step<E>(request: RequestView, events: Seq<EventView<E>>)
    requires
        admissible(request, events),
        events.len() > 0,
    ensures
        inv(run(request, events.drop_last()).0),
        run(request, events.drop_last()).0.request == request,
        awaits(run(request, events.drop_last()).0, events.last()),
        parts_story(request, events.drop_last()),
        parts_story(request, events),
        load_events(events) == if events.last() is Load {
            load_events(events.drop_last()).push(events.last()->Load_0)
        } else {
            load_events(events.drop_last())
        },
        fs_events(events) == if events.last() is Prepare {
            fs_events(events.drop_last()).push(events.last()->Prepare_0)
        } else {
            fs_events(events.drop_last())
        },
        events.last() is Load ==> load_events(events).drop_last() == load_events(
            events.drop_last(),
        ),
        events.last() is Prepare ==> fs_events(events).drop_last() == fs_events(
            events.drop_last(),
        ),
        load_run(request.sources, load_events(events)) is Loaded && (events.last() is Load
            || events.last() is EnvFetched) ==> fs_events(events).len() == 0,
{
    let before = events.drop_last();
    lemma_run(request, before);
    lemma_parts(request, before);
    lemma_parts(request, events);
    match events.last() {
        EventView::Load(e) => {
            assert(load_events(events).drop_last() =~= load_events(before));
        },
        EventView::Prepare(e) => {
            assert(fs_events(events).drop_last() =~= fs_events(before));
        },
        _ => {},
    }
}

/// A run starts with its policy, and each step in loading it is taken as the
/// loading asks for it.
#[verifier::rlimit(40)]
pub proof fn law_policy_is_loaded_first<E>(
    request: RequestView,
    events: Seq<EventView<E>>,
    action: LoadActionView,
)
    requires
        admissible(request, events),
    ensures
        run(request, events).1 == ActionView::<E>::Load(action) <==> {
            &&& request.command.len() > 0
            &&& events.len() > 0 ==> events.last() is Load
            &&& load_run(request.sources, load_events(events)) matches LoadProgressView::Perform(
                _,
                asked,
            )
            &&& asked == action
        },
{
    if events.len() > 0 {
        lemma_last_step(request, events);
    }
}

/// Once the policy is loaded and the provider's environment is out of the way,
/// the filesystem is prepared, and each step of that is taken as the preparation
/// of the loaded policy asks for it.
#[verifier::rlimit(40)]
pub proof fn law_filesystem_is_prepared_for_the_policy<E>(
    request: RequestView,
    events: Seq<EventView<E>>,
    action: FsActionView,
)
    requires
        admissible(request, events),
    ensures
        run(request, events).1 == ActionView::<E>::Prepare(action) <==> {
            &&& events.len() > 0
            &&& match events.last() {
                EventView::Load(_) => request.sources.sandbox_id is None
                    || request.sources.navigator_endpoint is None,
                EventView::EnvFetched(_) => true,
                EventView::Prepare(_) => true,
                _ => false,
            }
            &&& load_run(request.sources, load_events(events)) is Loaded
            &&& fs_run(
                loaded_policy(request, events),
                request.platform,
                fs_events(events),
            ) matches FsProgressView::Perform(_, asked)
            &&& asked == action
        },
{
    if events.len() > 0 {
        lemma_last_step(request, events);
    }
}

/// Behind a proxied policy, and only there, a CA is generated as soon as the
/// filesystem is ready. Its certificates are written if it was generated. The
/// namespace comes next, on Linux and nowhere else.
#[verifier::rlimit(40)]
pub proof fn law_proxied_policies_get_their_network<E>(
    request: RequestView,
    events: Seq<EventView<E>>,
)
    requires
        admissible(request, events),
    ensures
        run(request, events).1 is GenerateCa <==> just_ready(request, events) && loaded_policy(
            request,
            events,
        ).network.mode is Proxy,
        run(request, events).1 == (ActionView::<E>::WriteCaFiles { dir: "/etc/navigator-tls"@ })
            <==> events.len() > 0 && events.last() == EventView::<E>::CaGenerated(true),
        run(request, events).1 is WriteCaFiles ==> events.len() > 0 && events.last()
            == EventView::<E>::CaGenerated(true),
        run(request, events).1 is CreateNetns <==> request.platform == Platform::Linux
            && ca_settled(events),
{
    if events.len() > 0 {
        lemma_last_step(request, events);
    }
}

/// Behind a proxied policy, once CA and namespace are dealt with, the proxy is
/// started or the run is refused: for want of a configuration, or else for want
/// of an engine.
#[verifier::rlimit(40)]
pub proof fn law_proxy_is_started_or_refused<E>(
    request: RequestView,
    events: Seq<EventView<E>>,
)
    requires
        admissible(request, events),
    ensures
        run(request, events).1 == ActionView::<E>::Finish(Err(ErrorView::ProxyConfigMissing))
            <==> netns_settled(request, events) && loaded_policy(
            request,
            events,
        ).network.proxy is None,
        run(request, events).1 == ActionView::<E>::Finish(Err(ErrorView::EngineMissing)) <==> {
            &&& netns_settled(request, events)
            &&& loaded_policy(request, events).network.proxy is Some
            &&& load_run(request.sources, load_events(events)) matches LoadProgressView::Loaded {
                engine,
                ..
            }
            &&& !engine
        },
        run(request, events).1 is StartProxy <==> {
            &&& netns_settled(request, events)
            &&& loaded_policy(request, events).network.proxy is Some
            &&& load_run(request.sources, load_events(events)) matches LoadProgressView::Loaded {
                engine,
                ..
            }
            &&& engine
        },
{
    if events.len() > 0 {
        lemma_last_step(request, events);
    }
}

/// Once the network is dealt with, the reaper is started, on Linux; then the SSH
/// server, where one is wanted; then the child.
#[verifier::rlimit(40)]
pub proof fn law_child_comes_last<E>(request: RequestView, events: Seq<EventView<E>>)
    requires
        admissible(request, events),
    ensures
        run(request, events).1 is StartReaper <==> request.platform == Platform::Linux
            && network_settled(request, events),
        run(request, events).1 is StartSsh <==> request.ssh_listen_addr is Some && reaper_settled(
            request,
            events,
        ),
        run(request, events).1 is SpawnChild <==> ssh_settled(request, events),
{
    if events.len() > 0 {
        lemma_last_step(request, events);
    }
}

/// The child that was started is waited for, for as many seconds as the caller
/// allows, or without a limit where the caller allows zero. It is killed exactly
/// when its time has run out.
#[verifier::rlimit(40)]
pub proof fn law_child_is_waited_for<E>(
    request: RequestView,
    events: Seq<EventView<E>>,
    pid: u32,
)
    requires
        admissible(request, events),
    ensures
        (run(request, events).1 matches ActionView::Wait { entrypoint_pid, timeout_secs }
            && entrypoint_pid == pid) <==> events.len() > 0 && events.last() == EventView::<
            E,
        >::ChildSpawned(Ok(pid)),
        run(request, events).1 matches ActionView::Wait { timeout_secs, .. } ==> {
            &&& request.timeout_secs > 0 ==> timeout_secs == Some(request.timeout_secs)
            &&& request.timeout_secs == 0 ==> timeout_secs is None
        },
        run(request, events).1 is Kill <==> events.len() > 0 && events.last() is TimedOut,
{
    if events.len() > 0 {
        lemma_last_step(request, events);
    }
}

/// A run succeeds exactly when the child has exited, with the child's code, or
/// when it was killed for its time, with 124.
#[verifier::rlimit(40)]
pub proof fn law_success_is_the_childs<E>(
    request: RequestView,
    events: Seq<EventView<E>>,
    code: i32,
)
    requires
        admissible(request, events),
    ensures
        run(request, events).1 == ActionView::<E>::Finish(Ok(code)) <==> {
            &&& events.len() > 0
            &&& match events.last() {
                EventView::ChildExited(Ok(exited)) => code == exited,
                EventView::Killed(Ok(_)) => code == 124,
                _ => false,
            }
        },
{
    if events.len() > 0 {
        lemma_last_step(request, events);
    }
}

/// A run fails exactly where it must: without a command, without a source for
/// its policy, for an unknown user or group, or with the error of an operation
/// that it cannot do without, which is returned as it came.
#[verifier::rlimit(40)]
pub proof fn law_failure_has_its_cause<E>(
    request: RequestView,
    events: Seq<EventView<E>>,
    error: E,
    name: Text,
)
    requires
        admissible(request, events),
    ensures
        run(request, events).1 == ActionView::<E>::Finish(Err(ErrorView::NoCommand))
            <==> request.command.len() == 0,
        run(request, events).1 == ActionView::<E>::Finish(Err(ErrorView::PolicyRequired)) <==> {
            &&& request.command.len() > 0
            &&& request.sources.policy_rules is None || request.sources.policy_data is None
            &&& request.sources.navigator_endpoint is None || request.sources.sandbox_id is None
        },
        run(request, events).1 == ActionView::<E>::Finish(Err(ErrorView::UserNotFound(name)))
            <==> {
            &&& events.len() > 0
            &&& events.last() == EventView::<E>::Prepare(FsEvent::User(Ok(None)))
            &&& loaded_policy(request, events).process.run_as_user == Some(name)
        },
        run(request, events).1 == ActionView::<E>::Finish(Err(ErrorView::GroupNotFound(name)))
            <==> {
            &&& events.len() > 0
            &&& events.last() == EventView::<E>::Prepare(FsEvent::Group(Ok(None)))
            &&& loaded_policy(request, events).process.run_as_group == Some(name)
        },
        run(request, events).1 == ActionView::Finish(Err(ErrorView::Outside(error))) <==> {
            &&& events.len() > 0
            &&& match events.last() {
                EventView::Load(LoadEventView::FilesLoaded(Err(e))) => e == error,
                EventView::Load(LoadEventView::ConfigRead(Err(e))) => e == error,
                EventView::Load(LoadEventView::Fetched(Err(e))) => e == error,
                EventView::Load(LoadEventView::EngineBuilt(Err(e))) => e == error,
                EventView::Load(LoadEventView::Converted(Err(e))) => e == error,
                EventView::Prepare(FsEvent::User(Err(e))) => e == error,
                EventView::Prepare(FsEvent::Group(Err(e))) => e == error,
                EventView::Prepare(FsEvent::Created(Err(e))) => e == error,
                EventView::Prepare(FsEvent::Owned(Err(e))) => e == error,
                EventView::ProxyStarted(Err(e)) => e == error,
                EventView::SshStarted(Err(e)) => e == error,
                EventView::ChildSpawned(Err(e)) => e == error,
                EventView::ChildExited(Err(e)) => e == error,
                EventView::Killed(Err(e)) => e == error,
                _ => false,
            }
        },
        run(request, events).1 != ActionView::<E>::Finish(Err(ErrorView::CacheMissing)),
{
    if events.len() > 0 {
        lemma_last_step(request, events);
        law_loading_fails_exactly_with_its_reports(
            request.sources,
            load_events(events.drop_last()),
            error,
        );
    }
}

/// Whether an action is the one that a stage waits for.
spec fn stands_for<E>(stage: StageView, action: ActionView<E>) -> bool {
    match stage {
        StageView::Loading(loader) => action matches ActionView::Load(asked) && match loader {
            Loader::LoadingFiles => asked is LoadFiles,
            Loader::QueryingConfig => asked is QueryConfig,
            Loader::Fetching => asked is Fetch,
            Loader::BuildingEngine => asked is BuildEngine,
            Loader::Converting { .. } => asked is Convert,
        },
        StageView::FetchingEnv => action is FetchProviderEnv,
        StageView::Preparing(preparer) => action matches ActionView::Prepare(asked)
            && match preparer.stage {
            FsStageView::User => asked is LookupUser,
            FsStageView::Group => asked is LookupGroup,
            FsStageView::Probing(_) => asked is Probe,
            FsStageView::Creating(_) => asked is CreateDir,
            FsStageView::Owning(_) => asked is SetOwner,
        },
        StageView::GeneratingCa => action is GenerateCa,
        StageView::WritingCa => action is WriteCaFiles,
        StageView::CreatingNetns => action is CreateNetns,
        StageView::StartingProxy => action is StartProxy,
        StageView::StartingReaper => action is StartReaper,
        StageView::StartingSsh => action is StartSsh,
        StageView::SpawningChild => action is SpawnChild,
        StageView::Waiting => action is Wait,
        StageView::Killing => action is Kill,
        StageView::Finished => action is Finish,
    }
}

proof fn lemma_stands_for<E>(request: RequestView, events: Seq<EventView<E>>)
    ensures
        stands_for(run(request, events).0.stage, run(request, events).1),
{
}

/// Each operation is answered by a report on that operation, and by no other. A
/// wait can be answered by the time running out, but only where a limit was set.
/// Nothing is awaited once a run is over.
#[verifier::rlimit(40)]
pub proof fn law_run_awaits_its_answer<E>(
    request: RequestView,
    events: Seq<EventView<E>>,
    event: EventView<E>,
)
    requires
        admissible(request, events),
    ensures
        admissible(request, events.push(event)) <==> match (run(request, events).1, event) {
            (
                ActionView::Load(LoadActionView::LoadFiles { .. }),
                EventView::Load(LoadEventView::FilesLoaded(_)),
            ) => true,
            (
                ActionView::Load(LoadActionView::QueryConfig),
                EventView::Load(LoadEventView::ConfigRead(_)),
            ) => true,
            (
                ActionView::Load(LoadActionView::Fetch { .. }),
                EventView::Load(LoadEventView::Fetched(_)),
            ) => true,
            (
                ActionView::Load(LoadActionView::BuildEngine),
                EventView::Load(LoadEventView::EngineBuilt(_)),
            ) => true,
            (
                ActionView::Load(LoadActionView::Convert),
                EventView::Load(LoadEventView::Converted(_)),
            ) => true,
            (ActionView::FetchProviderEnv { .. }, EventView::EnvFetched(_)) => true,
            (
                ActionView::Prepare(FsActionView::LookupUser(_)),
                EventView::Prepare(FsEvent::User(_)),
            ) => true,
            (
                ActionView::Prepare(FsActionView::LookupGroup(_)),
                EventView::Prepare(FsEvent::Group(_)),
            ) => true,
            (
                ActionView::Prepare(FsActionView::Probe(_)),
                EventView::Prepare(FsEvent::Exists(_)),
            ) => true,
            (
                ActionView::Prepare(FsActionView::CreateDir(_)),
                EventView::Prepare(FsEvent::Created(_)),
            ) => true,
            (
                ActionView::Prepare(FsActionView::SetOwner { .. }),
                EventView::Prepare(FsEvent::Owned(_)),
            ) => true,
            (ActionView::GenerateCa, EventView::CaGenerated(_)) => true,
            (ActionView::WriteCaFiles { .. }, EventView::CaWritten(_)) => true,
            (ActionView::CreateNetns, EventView::NetnsCreated(_)) => true,
            (ActionView::StartProxy(_), EventView::ProxyStarted(_)) => true,
            (ActionView::StartReaper, EventView::ReaperStarted) => true,
            (ActionView::StartSsh(_), EventView::SshStarted(_)) => true,
            (ActionView::SpawnChild(_), EventView::ChildSpawned(_)) => true,
            (ActionView::Wait { .. }, EventView::ChildExited(_)) => true,
            (ActionView::Wait { .. }, EventView::TimedOut) => request.timeout_secs > 0,
            (ActionView::Kill, EventView::Killed(_)) => true,
            _ => false,
        },
{
    assert(events.push(event).drop_last() =~= events);
    lemma_run(request, events);
    lemma_stands_for(request, events);
}

/// Where the CA's certificates were written, their directory is the one path
/// that is readable on top of what was loaded. Nothing else of the policy is
/// changed, neither then nor otherwise.
pub proof fn law_policy_is_enforced_as_loaded<E>(
    request: RequestView,
    events: Seq<EventView<E>>,
)
    requires
        admissible(request, events),
    ensures
        ({
            let loaded = loaded_policy(request, events);
            let readable = if events.contains(EventView::<E>::CaWritten(true)) {
                loaded.filesystem.read_only.push("/etc/navigator-tls"@)
            } else {
                loaded.filesystem.read_only
            };
            &&& run(request, events).1 matches ActionView::SpawnChild(launch) ==> {
                &&& launch.policy.version == loaded.version
                &&& launch.policy.filesystem.read_only == readable
                &&& launch.policy.filesystem.read_write == loaded.filesystem.read_write
                &&& launch.policy.filesystem.with_workdir == loaded.filesystem.with_workdir
                &&& launch.policy.network == loaded.network
                &&& launch.policy.landlock == loaded.landlock
                &&& launch.policy.process == loaded.process
            }
            &&& run(request, events).1 matches ActionView::StartSsh(launch) ==> {
                &&& launch.policy.version == loaded.version
                &&& launch.policy.filesystem.read_only == readable
                &&& launch.policy.filesystem.read_write == loaded.filesystem.read_write
                &&& launch.policy.filesystem.with_workdir == loaded.filesystem.with_workdir
                &&& launch.policy.network == loaded.network
                &&& launch.policy.landlock == loaded.landlock
                &&& launch.policy.process == loaded.process
            }
        }),
{
    law_child_is_what_was_asked_for(request, events);
    law_ssh_server_is_what_was_asked_for(request, events);
}

/// The supervisor itself waits for as long as it is told to: the limit of the
/// wait is the caller's, whatever it is.
pub proof fn law_supervisor_keeps_the_limit<E>(
    supervisor: Supervisor,
    event: Event<E>,
    stepped: (Supervisor, Action<E>),
    pid: u32,
)
    requires
        call_ensures(Supervisor::step::<E>, (supervisor, event), stepped),
        event == Event::<E>::ChildSpawned(Ok(pid)),
    ensures
        stepped.1 matches Action::Wait { entrypoint_pid, timeout_secs } && {
            &&& entrypoint_pid == pid
            &&& supervisor@.request.timeout_secs > 0 ==> timeout_secs == Some(
                supervisor@.request.timeout_secs,
            )
            &&& supervisor@.request.timeout_secs == 0 ==> timeout_secs is None
        },
        stepped.0@.request == supervisor@.request,
{
}

} // verus!
