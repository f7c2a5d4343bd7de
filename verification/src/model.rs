//! A run of the sandbox as a state machine over plain values.
//!
//! This is what the contracts in [`crate::supervisor`] speak of. A run goes
//! through the stages of [`StageView`] in the order in which they are listed,
//! leaves out those that do not apply, and ends with an exit code or an error.

use crate::error::ErrorView;
use crate::filesystem::{
    fs_awaits, fs_begin, fs_inv, fs_next, FsActionView, FsEvent, FsProgressView, PreparerView,
};
use crate::load::{
    load_awaits, load_begin, load_next, LoadActionView, LoadEventView, LoadProgressView, Loader,
    SourcesView,
};
use crate::network::{bind_address, session_proxy_url, BindView, NetnsView, Platform};
use crate::policy::{PolicyView, ProxyView};
use crate::text::Text;
use vstd::prelude::*;

verus! {

/// The exit code of a run whose time ran out.
pub const TIMEOUT_EXIT_CODE: i32 = 124;

/// The directory that the certificates of the ephemeral CA are written to.
pub open spec fn tls_dir() -> Text {
    "/etc/navigator-tls"@
}

/// What the caller wants run, and how.
#[verifier::ext_equal]
pub struct RequestView {
    pub command: Seq<Text>,
    pub workdir: Option<Text>,
    pub timeout_secs: u64,
    pub interactive: bool,
    pub sources: SourcesView,
    pub ssh_listen_addr: Option<Text>,
    pub ssh_handshake_secret: Option<Text>,
    pub ssh_handshake_skew_secs: u64,
    pub platform: Platform,
}

/// The operation that a run is waiting for.
#[verifier::ext_equal]
pub enum StageView {
    Loading(Loader),
    FetchingEnv,
    Preparing(PreparerView),
    GeneratingCa,
    WritingCa,
    CreatingNetns,
    StartingProxy,
    StartingReaper,
    StartingSsh,
    SpawningChild,
    Waiting,
    Killing,
    Finished,
}

/// All that a run has found out so far.
#[verifier::ext_equal]
pub struct StateView {
    pub request: RequestView,
    pub stage: StageView,
    /// The policy, once it is loaded.
    pub policy: Option<PolicyView>,
    /// Whether there is an engine that decides on requests.
    pub engine: bool,
    /// Whether there is a cache of binary identities.
    pub identity_cache: bool,
    /// The environment that the provider wants set.
    pub env: Seq<(Text, Text)>,
    /// Whether TLS is terminated, with the CA's certificates on disk.
    pub tls: bool,
    /// The network namespace, if there is one.
    pub netns: Option<NetnsView>,
}

/// What the proxy is started with.
#[verifier::ext_equal]
pub struct ProxyLaunchView {
    pub config: ProxyView,
    pub bind: Option<BindView>,
    pub control_plane: Option<Text>,
    pub tls: bool,
}

/// What the SSH server is started with.
#[verifier::ext_equal]
pub struct SshLaunchView {
    pub listen_addr: Text,
    pub policy: PolicyView,
    pub workdir: Option<Text>,
    pub secret: Text,
    pub skew_secs: u64,
    pub netns_fd: Option<i32>,
    pub proxy_url: Option<Text>,
    pub ca_files: bool,
    pub env: Seq<(Text, Text)>,
}

/// What the child is started with.
#[verifier::ext_equal]
pub struct ChildLaunchView {
    pub program: Text,
    pub args: Seq<Text>,
    pub workdir: Option<Text>,
    pub interactive: bool,
    pub policy: PolicyView,
    pub netns: bool,
    pub ca_files: bool,
    pub env: Seq<(Text, Text)>,
}

/// An operation that a run needs, or its end.
#[verifier::ext_equal]
pub enum ActionView<E> {
    Load(LoadActionView),
    FetchProviderEnv { endpoint: Text, sandbox_id: Text },
    Prepare(FsActionView),
    GenerateCa,
    WriteCaFiles { dir: Text },
    CreateNetns,
    StartProxy(ProxyLaunchView),
    StartReaper,
    StartSsh(SshLaunchView),
    SpawnChild(ChildLaunchView),
    Wait { entrypoint_pid: u32, timeout_secs: Option<u64> },
    Kill,
    Finish(Result<i32, ErrorView<E>>),
}

/// What came of an operation.
#[verifier::ext_equal]
pub enum EventView<E> {
    Load(LoadEventView<E>),
    EnvFetched(Option<Seq<(Text, Text)>>),
    Prepare(FsEvent<E>),
    CaGenerated(bool),
    CaWritten(bool),
    NetnsCreated(Option<NetnsView>),
    ProxyStarted(Result<(), E>),
    ReaperStarted,
    SshStarted(Result<(), E>),
    ChildSpawned(Result<u32, E>),
    ChildExited(Result<i32, E>),
    TimedOut,
    Killed(Result<(), E>),
}

impl StateView {
    /// The policy of a run that has loaded one.
    pub open spec fn loaded(self) -> PolicyView {
        self.policy->0
    }

    /// Whether the run is on Linux.
    pub open spec fn linux(self) -> bool {
        self.request.platform == Platform::Linux
    }

    /// The run at another stage.
    pub open spec fn at(self, stage: StageView) -> StateView {
        StateView { stage, ..self }
    }
}

/// What the proxy is started with: bound to the namespace's link where there is
/// one, and with the server always reachable.
pub open spec fn proxy_launch(s: StateView) -> ProxyLaunchView {
    ProxyLaunchView {
        config: s.loaded().network.proxy->0,
        bind: bind_address(s.netns, s.loaded().network.proxy),
        control_plane: s.request.sources.navigator_endpoint,
        tls: s.tls,
    }
}

/// What the SSH server is started with.
pub open spec fn ssh_launch(s: StateView) -> SshLaunchView {
    SshLaunchView {
        listen_addr: s.request.ssh_listen_addr->0,
        policy: s.loaded(),
        workdir: s.request.workdir,
        secret: match s.request.ssh_handshake_secret {
            Some(secret) => secret,
            None => Seq::empty(),
        },
        skew_secs: s.request.ssh_handshake_skew_secs,
        netns_fd: match s.netns {
            Some(ns) => ns.ns_fd,
            None => None,
        },
        proxy_url: session_proxy_url(s.request.platform, s.netns, s.loaded().network),
        ca_files: s.tls,
        env: s.env,
    }
}

/// What the child is started with.
pub open spec fn child_launch(s: StateView) -> ChildLaunchView {
    ChildLaunchView {
        program: s.request.command.first(),
        args: s.request.command.skip(1),
        workdir: s.request.workdir,
        interactive: s.request.interactive,
        policy: s.loaded(),
        netns: s.netns is Some,
        ca_files: s.tls,
        env: s.env,
    }
}

/// How long the child may run. Zero seconds stand for no limit.
pub open spec fn time_limit(timeout_secs: u64) -> Option<u64> {
    if timeout_secs > 0 {
        Some(timeout_secs)
    } else {
        None
    }
}

/// The end of a run.
pub open spec fn finish<E>(s: StateView, result: Result<i32, ErrorView<E>>) -> (
    StateView,
    ActionView<E>,
) {
    (s.at(StageView::Finished), ActionView::Finish(result))
}

/// The end of a run in which an outside operation failed.
pub open spec fn fail<E>(s: StateView, e: E) -> (StateView, ActionView<E>) {
    finish(s, Err(ErrorView::Outside(e)))
}

/// Starting the child.
pub open spec fn enter_spawn<E>(s: StateView) -> (StateView, ActionView<E>) {
    (s.at(StageView::SpawningChild), ActionView::SpawnChild(child_launch(s)))
}

/// The SSH server, where it is wanted, and on to the child.
pub open spec fn enter_ssh<E>(s: StateView) -> (StateView, ActionView<E>) {
    if s.request.ssh_listen_addr is Some {
        (s.at(StageView::StartingSsh), ActionView::StartSsh(ssh_launch(s)))
    } else {
        enter_spawn(s)
    }
}

/// The reaper, on Linux, and on to the SSH server.
pub open spec fn enter_reaper<E>(s: StateView) -> (StateView, ActionView<E>) {
    if s.linux() {
        (s.at(StageView::StartingReaper), ActionView::StartReaper)
    } else {
        enter_ssh(s)
    }
}

/// The proxy. It takes a configuration, an engine and an identity cache.
pub open spec fn enter_proxy<E>(s: StateView) -> (StateView, ActionView<E>) {
    if s.loaded().network.proxy is None {
        finish(s, Err(ErrorView::ProxyConfigMissing))
    } else if !s.engine {
        finish(s, Err(ErrorView::EngineMissing))
    } else if !s.identity_cache {
        finish(s, Err(ErrorView::CacheMissing))
    } else {
        (s.at(StageView::StartingProxy), ActionView::StartProxy(proxy_launch(s)))
    }
}

/// The network namespace, on Linux, and on to the proxy.
pub open spec fn enter_netns<E>(s: StateView) -> (StateView, ActionView<E>) {
    if s.linux() {
        (s.at(StageView::CreatingNetns), ActionView::CreateNetns)
    } else {
        enter_proxy(s)
    }
}

/// All that a proxied policy needs, from the CA on; else on to the reaper.
pub open spec fn enter_network<E>(s: StateView) -> (StateView, ActionView<E>) {
    if s.loaded().proxied() {
        (s.at(StageView::GeneratingCa), ActionView::GenerateCa)
    } else {
        enter_reaper(s)
    }
}

/// One more step of the filesystem's preparation, or on to the network.
pub open spec fn continue_prepare<E>(s: StateView, progress: FsProgressView<E>) -> (
    StateView,
    ActionView<E>,
) {
    match progress {
        FsProgressView::Perform(preparer, action) => (
            s.at(StageView::Preparing(preparer)),
            ActionView::Prepare(action),
        ),
        FsProgressView::Ready => enter_network(s),
        FsProgressView::Failed(error) => finish(s, Err(error)),
    }
}

/// The filesystem's preparation. By now it is known whether there is an engine,
/// and with one there is an identity cache.
pub open spec fn enter_prepare<E>(s: StateView) -> (StateView, ActionView<E>) {
    continue_prepare(
        StateView { identity_cache: s.engine, ..s },
        fs_begin(s.loaded(), s.request.platform),
    )
}

/// The provider's environment, where there is a server to ask, and on to the
/// filesystem.
pub open spec fn enter_env<E>(s: StateView) -> (StateView, ActionView<E>) {
    if s.request.sources.has_server() {
        (
            s.at(StageView::FetchingEnv),
            ActionView::FetchProviderEnv {
                endpoint: s.request.sources.navigator_endpoint->0,
                sandbox_id: s.request.sources.sandbox_id->0,
            },
        )
    } else {
        enter_prepare(s)
    }
}

/// One more step of loading the policy, or on to the provider's environment.
pub open spec fn continue_load<E>(s: StateView, progress: LoadProgressView<E>) -> (
    StateView,
    ActionView<E>,
) {
    match progress {
        LoadProgressView::Perform(loader, action) => (
            s.at(StageView::Loading(loader)),
            ActionView::Load(action),
        ),
        LoadProgressView::Loaded { policy, engine } => enter_env(
            StateView { policy: Some(policy), engine, ..s },
        ),
        LoadProgressView::Failed(error) => finish(s, Err(error)),
    }
}

/// A run of which nothing is known yet but what is wanted, and which waits for
/// nothing.
pub open spec fn blank(request: RequestView) -> StateView {
    StateView {
        request,
        stage: StageView::Finished,
        policy: None,
        engine: false,
        identity_cache: false,
        env: Seq::empty(),
        tls: false,
        netns: None,
    }
}

/// The start of a run.
pub open spec fn begin<E>(request: RequestView) -> (StateView, ActionView<E>) {
    if request.command.len() == 0 {
        finish(blank(request), Err(ErrorView::NoCommand))
    } else {
        continue_load(blank(request), load_begin(request.sources))
    }
}

/// Whether an event reports on the operation that was asked for last. Only a
/// limited wait can run out of time.
pub open spec fn awaits<E>(s: StateView, event: EventView<E>) -> bool {
    match s.stage {
        StageView::Loading(loader) => event matches EventView::Load(e) && load_awaits(loader, e),
        StageView::FetchingEnv => event is EnvFetched,
        StageView::Preparing(preparer) => event matches EventView::Prepare(e) && fs_awaits(
            preparer,
            e,
        ),
        StageView::GeneratingCa => event is CaGenerated,
        StageView::WritingCa => event is CaWritten,
        StageView::CreatingNetns => event is NetnsCreated,
        StageView::StartingProxy => event is ProxyStarted,
        StageView::StartingReaper => event is ReaperStarted,
        StageView::StartingSsh => event is SshStarted,
        StageView::SpawningChild => event is ChildSpawned,
        StageView::Waiting => event is ChildExited || (event is TimedOut
            && s.request.timeout_secs > 0),
        StageView::Killing => event is Killed,
        StageView::Finished => false,
    }
}

/// What follows an event.
pub open spec fn next<E>(s: StateView, event: EventView<E>) -> (StateView, ActionView<E>) {
    match event {
        EventView::Load(e) => continue_load(s, load_next(s.stage->Loading_0, e)),
        EventView::EnvFetched(Some(env)) => enter_prepare(StateView { env, ..s }),
        EventView::EnvFetched(None) => enter_prepare(StateView { env: Seq::empty(), ..s }),
        EventView::Prepare(e) => continue_prepare(
            s,
            fs_next(s.loaded(), s.stage->Preparing_0, e),
        ),
        EventView::CaGenerated(true) => (
            s.at(StageView::WritingCa),
            ActionView::WriteCaFiles { dir: tls_dir() },
        ),
        EventView::CaGenerated(false) => enter_netns(s),
        EventView::CaWritten(true) => enter_netns(
            StateView { tls: true, policy: Some(s.loaded().with_readable(tls_dir())), ..s },
        ),
        EventView::CaWritten(false) => enter_netns(s),
        EventView::NetnsCreated(netns) => enter_proxy(StateView { netns, ..s }),
        EventView::ProxyStarted(Ok(_)) => enter_reaper(s),
        EventView::ProxyStarted(Err(e)) => fail(s, e),
        EventView::ReaperStarted => enter_ssh(s),
        EventView::SshStarted(Ok(_)) => enter_spawn(s),
        EventView::SshStarted(Err(e)) => fail(s, e),
        EventView::ChildSpawned(Ok(pid)) => (
            s.at(StageView::Waiting),
            ActionView::Wait {
                entrypoint_pid: pid,
                timeout_secs: time_limit(s.request.timeout_secs),
            },
        ),
        EventView::ChildSpawned(Err(e)) => fail(s, e),
        EventView::ChildExited(Ok(code)) => finish(s, Ok(code)),
        EventView::ChildExited(Err(e)) => fail(s, e),
        EventView::TimedOut => (s.at(StageView::Killing), ActionView::Kill),
        EventView::Killed(Ok(_)) => finish(s, Ok(TIMEOUT_EXIT_CODE)),
        EventView::Killed(Err(e)) => fail(s, e),
    }
}

/// What holds of every state that a run comes to.
pub open spec fn inv(s: StateView) -> bool {
    match s.stage {
        StageView::Finished => true,
        StageView::Loading(_) => {
            &&& s.request.command.len() > 0
            &&& s.policy is None
            &&& !s.identity_cache
            &&& s.env.len() == 0
            &&& !s.tls
            &&& s.netns is None
        },
        StageView::FetchingEnv => {
            &&& s.request.command.len() > 0
            &&& s.request.sources.has_server()
            &&& s.policy is Some
            &&& !s.identity_cache
            &&& s.env.len() == 0
            &&& !s.tls
            &&& s.netns is None
        },
        _ => {
            &&& s.request.command.len() > 0
            &&& s.policy is Some
            &&& s.identity_cache == s.engine
            &&& s.tls ==> s.loaded().proxied()
            &&& s.netns is Some ==> s.linux() && s.loaded().proxied()
            &&& match s.stage {
                StageView::Preparing(preparer) => {
                    &&& fs_inv(s.loaded(), preparer)
                    &&& !s.tls
                    &&& s.netns is None
                },
                StageView::GeneratingCa | StageView::WritingCa => {
                    &&& s.loaded().proxied()
                    &&& !s.tls
                    &&& s.netns is None
                },
                StageView::CreatingNetns => {
                    &&& s.linux()
                    &&& s.loaded().proxied()
                    &&& s.netns is None
                },
                StageView::StartingProxy => {
                    &&& s.loaded().proxied()
                    &&& s.loaded().network.proxy is Some
                    &&& s.engine
                },
                StageView::StartingReaper => s.linux(),
                StageView::StartingSsh => s.request.ssh_listen_addr is Some,
                StageView::Killing => s.request.timeout_secs > 0,
                _ => true,
            }
        },
    }
}

} // verus!
