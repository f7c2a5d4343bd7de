//! The supervisor: which operation of a run comes next, and with what.
//!
//! [`run_sandbox`] starts a run and [`Supervisor::step`] carries it on. Each
//! gives out one [`Action`]; whoever drives the run performs it and reports
//! back with an [`Event`], until the action is [`Action::Finish`].

use crate::error::SandboxError;
use crate::filesystem::{
    fs_progress_inv, prepare_filesystem, FsAction, FsEvent, FsProgress, Preparer,
};
use crate::load::{load_policy, LoadAction, LoadEvent, LoadProgress, Loader, PolicySources};
use crate::model::{
    awaits, begin, blank, child_launch, continue_load, continue_prepare, enter_env, enter_netns,
    enter_network, enter_prepare, enter_proxy, enter_reaper, enter_spawn, enter_ssh, fail, finish,
    inv, next, proxy_launch, ssh_launch, ActionView, ChildLaunchView, EventView, ProxyLaunchView,
    RequestView, SshLaunchView, StageView, StateView, TIMEOUT_EXIT_CODE,
};
use crate::network::{
    bind_view, choose_bind_address, choose_session_proxy_url, netns_view, BindAddr, Netns,
    Platform,
};
use crate::policy::{ProxyPolicy, SandboxPolicy};
use crate::text::{copy_from, copy_option};
use vstd::pervasive::unreached;
use vstd::prelude::*;

verus! {

/// What the caller wants run, and how.
#[derive(Debug, PartialEq, Eq)]
pub struct RunRequest {
    /// The program, followed by its arguments.
    pub command: Vec<String>,
    /// The directory to run it in.
    pub workdir: Option<String>,
    /// After how many seconds it is killed; zero for never.
    pub timeout_secs: u64,
    /// Whether it has the supervisor's terminal.
    pub interactive: bool,
    /// Where the policy can be had from.
    pub sources: PolicySources,
    /// Where the SSH server is to listen, if one is wanted.
    pub ssh_listen_addr: Option<String>,
    /// The secret that the gateway proves itself with.
    pub ssh_handshake_secret: Option<String>,
    /// By how many seconds the gateway's clock may differ.
    pub ssh_handshake_skew_secs: u64,
    /// The platform that the supervisor runs on.
    pub platform: Platform,
}

/// The operation that a run is waiting for.
#[derive(Clone, Copy, Debug, PartialEq, Eq)]
pub enum Stage {
    /// The policy is being loaded.
    Loading(Loader),
    /// The provider's environment is being fetched.
    FetchingEnv,
    /// The filesystem is being prepared.
    Preparing(Preparer),
    /// An ephemeral CA is being generated.
    GeneratingCa,
    /// The CA's certificates are being written to disk.
    WritingCa,
    /// The network namespace is being created.
    CreatingNetns,
    /// The proxy is being started.
    StartingProxy,
    /// The zombie reaper is being started.
    StartingReaper,
    /// The SSH server is being started.
    StartingSsh,
    /// The child is being started.
    SpawningChild,
    /// The child is running.
    Waiting,
    /// The child is being killed.
    Killing,
    /// The run is over.
    Finished,
}

/// What the proxy is started with.
#[derive(Debug, PartialEq, Eq)]
pub struct ProxyLaunch {
    /// Its configuration.
    pub config: ProxyPolicy,
    /// Where it is to listen, if its configuration does not decide.
    pub bind: Option<BindAddr>,
    /// The server's address, which is always reachable.
    pub control_plane: Option<String>,
    /// Whether it terminates TLS.
    pub tls: bool,
}

/// What the SSH server is started with.
#[derive(Debug, PartialEq, Eq)]
pub struct SshLaunch {
    /// Where it is to listen.
    pub listen_addr: String,
    /// The policy that its sessions run under.
    pub policy: SandboxPolicy,
    /// The directory that its sessions start in.
    pub workdir: Option<String>,
    /// The secret that the gateway proves itself with.
    pub secret: String,
    /// By how many seconds the gateway's clock may differ.
    pub skew_secs: u64,
    /// The descriptor by which its sessions enter the network namespace.
    pub netns_fd: Option<i32>,
    /// The proxy that its sessions are told of.
    pub proxy_url: Option<String>,
    /// Whether its sessions are told of the CA's certificates.
    pub ca_files: bool,
    /// The provider's environment, by name and value.
    pub env: Vec<(String, String)>,
}

/// What the child is started with.
#[derive(Debug, PartialEq, Eq)]
pub struct ChildLaunch {
    /// The program.
    pub program: String,
    /// Its arguments.
    pub args: Vec<String>,
    /// The directory that it starts in.
    pub workdir: Option<String>,
    /// Whether it has the supervisor's terminal.
    pub interactive: bool,
    /// The policy that it runs under.
    pub policy: SandboxPolicy,
    /// Whether it enters the network namespace.
    pub netns: bool,
    /// Whether it is told of the CA's certificates.
    pub ca_files: bool,
    /// The provider's environment, by name and value.
    pub env: Vec<(String, String)>,
}

/// An operation that a run needs, or its end.
#[derive(Debug, PartialEq, Eq)]
pub enum Action<E> {
    /// Take a step in loading the policy.
    Load(LoadAction),
    /// Fetch the environment that the provider wants set.
    FetchProviderEnv {
        /// The server's address.
        endpoint: String,
        /// The sandbox's id.
        sandbox_id: String,
    },
    /// Take a step in preparing the filesystem.
    Prepare(FsAction),
    /// Generate an ephemeral CA.
    GenerateCa,
    /// Write the CA's certificates to disk.
    WriteCaFiles {
        /// The directory that they go to.
        dir: String,
    },
    /// Create the network namespace.
    CreateNetns,
    /// Start the proxy.
    StartProxy(ProxyLaunch),
    /// Start the zombie reaper.
    StartReaper,
    /// Start the SSH server.
    StartSsh(SshLaunch),
    /// Start the child.
    SpawnChild(ChildLaunch),
    /// Make the child's id known to the proxy, and wait for the child to exit.
    Wait {
        /// The child's id.
        entrypoint_pid: u32,
        /// After how many seconds to give up, if ever.
        timeout_secs: Option<u64>,
    },
    /// Kill the child.
    Kill,
    /// End the run with an exit code or an error.
    Finish(Result<i32, SandboxError<E>>),
}

/// What came of an operation.
#[derive(Debug, PartialEq, Eq)]
pub enum Event<E> {
    /// A step in loading the policy was taken.
    Load(LoadEvent<E>),
    /// The provider's environment was fetched, or not.
    EnvFetched(Option<Vec<(String, String)>>),
    /// A step in preparing the filesystem was taken.
    Prepare(FsEvent<E>),
    /// Whether the CA was generated.
    CaGenerated(bool),
    /// Whether the CA's certificates were written.
    CaWritten(bool),
    /// The network namespace was created, or not.
    NetnsCreated(Option<Netns>),
    /// The proxy was started, or not.
    ProxyStarted(Result<(), E>),
    /// The zombie reaper was started.
    ReaperStarted,
    /// The SSH server was started, or not.
    SshStarted(Result<(), E>),
    /// The child was started with this id, or not.
    ChildSpawned(Result<u32, E>),
    /// The child exited with this code, or could not be waited for.
    ChildExited(Result<i32, E>),
    /// The time for the child ran out.
    TimedOut,
    /// The child was killed, or not.
    Killed(Result<(), E>),
}

/// How far a run has come, and what it has gathered on its way.
#[derive(Debug)]
struct Run {
    request: RunRequest,
    stage: Stage,
    policy: Option<SandboxPolicy>,
    engine: bool,
    identity_cache: bool,
    env: Vec<(String, String)>,
    tls: bool,
    netns: Option<Netns>,
}

/// A run of the sandbox.
#[derive(Debug)]
pub struct Supervisor {
    run: Run,
}

impl View for RunRequest {
    type V = RequestView;

    open spec fn view(&self) -> RequestView {
        RequestView {
            command: self.command.deep_view(),
            workdir: self.workdir.deep_view(),
            timeout_secs: self.timeout_secs,
            interactive: self.interactive,
            sources: self.sources@,
            ssh_listen_addr: self.ssh_listen_addr.deep_view(),
            ssh_handshake_secret: self.ssh_handshake_secret.deep_view(),
            ssh_handshake_skew_secs: self.ssh_handshake_skew_secs,
            platform: self.platform,
        }
    }
}

impl View for Stage {
    type V = StageView;

    open spec fn view(&self) -> StageView {
        match *self {
            Stage::Loading(loader) => StageView::Loading(loader),
            Stage::FetchingEnv => StageView::FetchingEnv,
            Stage::Preparing(preparer) => StageView::Preparing(preparer@),
            Stage::GeneratingCa => StageView::GeneratingCa,
            Stage::WritingCa => StageView::WritingCa,
            Stage::CreatingNetns => StageView::CreatingNetns,
            Stage::StartingProxy => StageView::StartingProxy,
            Stage::StartingReaper => StageView::StartingReaper,
            Stage::StartingSsh => StageView::StartingSsh,
            Stage::SpawningChild => StageView::SpawningChild,
            Stage::Waiting => StageView::Waiting,
            Stage::Killing => StageView::Killing,
            Stage::Finished => StageView::Finished,
        }
    }
}

impl View for ProxyLaunch {
    type V = ProxyLaunchView;

    open spec fn view(&self) -> ProxyLaunchView {
        ProxyLaunchView {
            config: self.config@,
            bind: bind_view(self.bind),
            control_plane: self.control_plane.deep_view(),
            tls: self.tls,
        }
    }
}

impl View for SshLaunch {
    type V = SshLaunchView;

    open spec fn view(&self) -> SshLaunchView {
        SshLaunchView {
            listen_addr: self.listen_addr@,
            policy: self.policy@,
            workdir: self.workdir.deep_view(),
            secret: self.secret@,
            skew_secs: self.skew_secs,
            netns_fd: self.netns_fd,
            proxy_url: self.proxy_url.deep_view(),
            ca_files: self.ca_files,
            env: self.env.deep_view(),
        }
    }
}

impl View for ChildLaunch {
    type V = ChildLaunchView;

    open spec fn view(&self) -> ChildLaunchView {
        ChildLaunchView {
            program: self.program@,
            args: self.args.deep_view(),
            workdir: self.workdir.deep_view(),
            interactive: self.interactive,
            policy: self.policy@,
            netns: self.netns,
            ca_files: self.ca_files,
            env: self.env.deep_view(),
        }
    }
}

impl<E> View for Action<E> {
    type V = ActionView<E>;

    open spec fn view(&self) -> ActionView<E> {
        match *self {
            Action::Load(action) => ActionView::Load(action@),
            Action::FetchProviderEnv { endpoint, sandbox_id } => ActionView::FetchProviderEnv {
                endpoint: endpoint@,
                sandbox_id: sandbox_id@,
            },
            Action::Prepare(action) => ActionView::Prepare(action@),
            Action::GenerateCa => ActionView::GenerateCa,
            Action::WriteCaFiles { dir } => ActionView::WriteCaFiles { dir: dir@ },
            Action::CreateNetns => ActionView::CreateNetns,
            Action::StartProxy(launch) => ActionView::StartProxy(launch@),
            Action::StartReaper => ActionView::StartReaper,
            Action::StartSsh(launch) => ActionView::StartSsh(launch@),
            Action::SpawnChild(launch) => ActionView::SpawnChild(launch@),
            Action::Wait { entrypoint_pid, timeout_secs } => ActionView::Wait {
                entrypoint_pid,
                timeout_secs,
            },
            Action::Kill => ActionView::Kill,
            Action::Finish(Ok(code)) => ActionView::Finish(Ok(code)),
            Action::Finish(Err(error)) => ActionView::Finish(Err(error@)),
        }
    }
}

impl<E> View for Event<E> {
    type V = EventView<E>;

    open spec fn view(&self) -> EventView<E> {
        match *self {
            Event::Load(event) => EventView::Load(event@),
            Event::EnvFetched(env) => EventView::EnvFetched(env.deep_view()),
            Event::Prepare(event) => EventView::Prepare(event),
            Event::CaGenerated(done) => EventView::CaGenerated(done),
            Event::CaWritten(done) => EventView::CaWritten(done),
            Event::NetnsCreated(netns) => EventView::NetnsCreated(netns_view(netns)),
            Event::ProxyStarted(result) => EventView::ProxyStarted(result),
            Event::ReaperStarted => EventView::ReaperStarted,
            Event::SshStarted(result) => EventView::SshStarted(result),
            Event::ChildSpawned(result) => EventView::ChildSpawned(result),
            Event::ChildExited(result) => EventView::ChildExited(result),
            Event::TimedOut => EventView::TimedOut,
            Event::Killed(result) => EventView::Killed(result),
        }
    }
}

impl View for Run {
    type V = StateView;

    closed spec fn view(&self) -> StateView {
        StateView {
            request: self.request@,
            stage: self.stage@,
            policy: match self.policy {
                Some(policy) => Some(policy@),
                None => None,
            },
            engine: self.engine,
            identity_cache: self.identity_cache,
            env: self.env.deep_view(),
            tls: self.tls,
            netns: netns_view(self.netns),
        }
    }
}

impl View for Supervisor {
    type V = StateView;

    closed spec fn view(&self) -> StateView {
        self.run@
    }
}

/// Copies an environment.
fn copy_env(env: &Vec<(String, String)>) -> (copy: Vec<(String, String)>)
    ensures
        copy@ == env@,
{
    let mut copy: Vec<(String, String)> = Vec::new();
    let mut i: usize = 0;
    while i < env.len()
        invariant
            i <= env@.len(),
            copy@ == env@.take(i as int),
        decreases env@.len() - i,
    {
        copy.push((env[i].0.clone(), env[i].1.clone()));
        i = i + 1;
        assert(copy@ =~= env@.take(i as int));
    }
    assert(copy@ =~= env@);
    copy
}

/// Starts a run of the sandbox. Without a command nothing else is done.
pub fn run_sandbox<E>(request: RunRequest) -> (started: (Supervisor, Action<E>))
    ensures
        (started.0@, started.1@) == begin::<E>(request@),
        inv(started.0@),
{
    let (run, action) = Run::begin(request);
    (Supervisor { run }, action)
}

impl Supervisor {
    /// Every run is in a state that its own steps can lead to.
    #[verifier::type_invariant]
    spec fn well_formed(self) -> bool {
        inv(self.run@)
    }

    /// Whether an event reports on the operation that was asked for last.
    pub fn awaits<E>(&self, event: &Event<E>) -> (awaited: bool)
        ensures
            awaited == awaits(self@, event@),
    {
        self.run.awaits(event)
    }

    /// Takes the report on the last operation and says what follows.
    pub fn step<E>(self, event: Event<E>) -> (stepped: (Supervisor, Action<E>))
        requires
            awaits(self@, event@),
        ensures
            (stepped.0@, stepped.1@) == next(self@, event@),
            inv(self@),
            inv(stepped.0@),
    {
        proof {
            use_type_invariant(&self);
        }
        let (run, action) = self.run.step(event);
        (Supervisor { run }, action)
    }
}

impl Run {
    /// Starts a run.
    fn begin<E>(request: RunRequest) -> (started: (Run, Action<E>))
        ensures
            (started.0@, started.1@) == begin::<E>(request@),
            inv(started.0@),
    {
        let run = Run {
            request,
            stage: Stage::Finished,
            policy: None,
            engine: false,
            identity_cache: false,
            env: Vec::new(),
            tls: false,
            netns: None,
        };
        assert(run@ == blank(request@));
        if run.request.command.len() == 0 {
            return run.finish(Err(SandboxError::NoCommand));
        }
        let progress: LoadProgress<E> = load_policy(&run.request.sources);
        run.continue_load(progress)
    }

    /// Whether an event reports on the operation that was asked for last.
    fn awaits<E>(&self, event: &Event<E>) -> (awaited: bool)
        ensures
            awaited == awaits(self@, event@),
    {
        match (&self.stage, event) {
            (Stage::Loading(loader), Event::Load(e)) => loader.awaits(e),
            (Stage::FetchingEnv, Event::EnvFetched(_)) => true,
            (Stage::Preparing(preparer), Event::Prepare(e)) => preparer.awaits(e),
            (Stage::GeneratingCa, Event::CaGenerated(_)) => true,
            (Stage::WritingCa, Event::CaWritten(_)) => true,
            (Stage::CreatingNetns, Event::NetnsCreated(_)) => true,
            (Stage::StartingProxy, Event::ProxyStarted(_)) => true,
            (Stage::StartingReaper, Event::ReaperStarted) => true,
            (Stage::StartingSsh, Event::SshStarted(_)) => true,
            (Stage::SpawningChild, Event::ChildSpawned(_)) => true,
            (Stage::Waiting, Event::ChildExited(_)) => true,
            (Stage::Waiting, Event::TimedOut) => self.request.timeout_secs > 0,
            (Stage::Killing, Event::Killed(_)) => true,
            _ => false,
        }
    }

    /// Takes the report on the last operation and says what follows.
    fn step<E>(self, event: Event<E>) -> (stepped: (Run, Action<E>))
        requires
            inv(self@),
            awaits(self@, event@),
        ensures
            (stepped.0@, stepped.1@) == next(self@, event@),
            inv(stepped.0@),
    {
        let mut this = self;
        match event {
            Event::Load(e) => match this.stage {
                Stage::Loading(loader) => {
                    let progress = loader.step(e);
                    this.continue_load(progress)
                },
                _ => unreached(),
            },
            Event::EnvFetched(Some(env)) => {
                this.env = env;
                this.enter_prepare()
            },
            Event::EnvFetched(None) => {
                this.env = Vec::new();
                assert(this.env.deep_view() =~= Seq::empty());
                this.enter_prepare()
            },
            Event::Prepare(e) => match (this.stage, &this.policy) {
                (Stage::Preparing(preparer), Some(policy)) => {
                    let progress = preparer.step(policy, e);
                    this.continue_prepare(progress)
                },
                _ => unreached(),
            },
            Event::CaGenerated(true) => {
                this.stage = Stage::WritingCa;
                (this, Action::WriteCaFiles { dir: "/etc/navigator-tls".to_string() })
            },
            Event::CaGenerated(false) => this.enter_netns(),
            Event::CaWritten(true) => {
                match this.policy {
                    Some(policy) => {
                        let mut policy = policy;
                        policy.allow_reading("/etc/navigator-tls".to_string());
                        this.policy = Some(policy);
                        this.tls = true;
                        this.enter_netns()
                    },
                    None => unreached(),
                }
            },
            Event::CaWritten(false) => this.enter_netns(),
            Event::NetnsCreated(netns) => {
                this.netns = netns;
                this.enter_proxy()
            },
            Event::ProxyStarted(Ok(_)) => this.enter_reaper(),
            Event::ProxyStarted(Err(e)) => this.fail(e),
            Event::ReaperStarted => this.enter_ssh(),
            Event::SshStarted(Ok(_)) => this.enter_spawn(),
            Event::SshStarted(Err(e)) => this.fail(e),
            Event::ChildSpawned(Ok(pid)) => {
                let timeout_secs: Option<u64> = if this.request.timeout_secs > 0 {
                    Some(this.request.timeout_secs)
                } else {
                    None
                };
                this.stage = Stage::Waiting;
                (this, Action::Wait { entrypoint_pid: pid, timeout_secs })
            },
            Event::ChildSpawned(Err(e)) => this.fail(e),
            Event::ChildExited(Ok(code)) => this.finish(Ok(code)),
            Event::ChildExited(Err(e)) => this.fail(e),
            Event::TimedOut => {
                this.stage = Stage::Killing;
                (this, Action::Kill)
            },
            Event::Killed(Ok(_)) => this.finish(Ok(TIMEOUT_EXIT_CODE)),
            Event::Killed(Err(e)) => this.fail(e),
        }
    }

    /// Ends the run.
    fn finish<E>(self, result: Result<i32, SandboxError<E>>) -> (ended: (Run, Action<E>))
        ensures
            (ended.0@, ended.1@) == finish::<E>(
                self@,
                match result {
                    Ok(code) => Ok(code),
                    Err(error) => Err(error@),
                },
            ),
    {
        let mut this = self;
        this.stage = Stage::Finished;
        (this, Action::Finish(result))
    }

    /// Ends the run with the error of an outside operation.
    fn fail<E>(self, e: E) -> (ended: (Run, Action<E>))
        ensures
            (ended.0@, ended.1@) == fail(self@, e),
    {
        self.finish(Err(SandboxError::Outside(e)))
    }

    /// Takes one more step in loading the policy, or goes on with it.
    fn continue_load<E>(self, progress: LoadProgress<E>) -> (stepped: (Run, Action<E>))
        requires
            self@.request.command.len() > 0,
            self@.policy is None,
            !self@.identity_cache,
            self@.env.len() == 0,
            !self@.tls,
            self@.netns is None,
        ensures
            (stepped.0@, stepped.1@) == continue_load(self@, progress@),
            inv(stepped.0@),
    {
        let mut this = self;
        match progress {
            LoadProgress::Perform(loader, action) => {
                this.stage = Stage::Loading(loader);
                (this, Action::Load(action))
            },
            LoadProgress::Loaded { policy, engine } => {
                this.policy = Some(policy);
                this.engine = engine;
                this.enter_env()
            },
            LoadProgress::Failed(error) => this.finish(Err(error)),
        }
    }

    /// Asks for the provider's environment, where there is a server to ask.
    fn enter_env<E>(self) -> (stepped: (Run, Action<E>))
        requires
            self@.request.command.len() > 0,
            self@.policy is Some,
            !self@.identity_cache,
            self@.env.len() == 0,
            !self@.tls,
            self@.netns is None,
        ensures
            (stepped.0@, stepped.1@) == enter_env::<E>(self@),
            inv(stepped.0@),
    {
        let mut this = self;
        let server: Option<(String, String)> = match (
            &this.request.sources.sandbox_id,
            &this.request.sources.navigator_endpoint,
        ) {
            (Some(id), Some(endpoint)) => Some((id.clone(), endpoint.clone())),
            _ => None,
        };
        match server {
            Some((sandbox_id, endpoint)) => {
                this.stage = Stage::FetchingEnv;
                (this, Action::FetchProviderEnv { endpoint, sandbox_id })
            },
            None => this.enter_prepare(),
        }
    }

    /// Starts preparing the filesystem.
    fn enter_prepare<E>(self) -> (stepped: (Run, Action<E>))
        requires
            self@.request.command.len() > 0,
            self@.policy is Some,
            !self@.tls,
            self@.netns is None,
        ensures
            (stepped.0@, stepped.1@) == enter_prepare::<E>(self@),
            inv(stepped.0@),
    {
        let mut this = self;
        this.identity_cache = this.engine;
        match &this.policy {
            Some(policy) => {
                let progress: FsProgress<E> = prepare_filesystem(policy, this.request.platform);
                this.continue_prepare(progress)
            },
            None => unreached(),
        }
    }

    /// Takes one more step in preparing the filesystem, or goes on to the
    /// network.
    fn continue_prepare<E>(self, progress: FsProgress<E>) -> (stepped: (Run, Action<E>))
        requires
            self@.request.command.len() > 0,
            self@.policy is Some,
            self@.identity_cache == self@.engine,
            !self@.tls,
            self@.netns is None,
            fs_progress_inv(self@.loaded(), progress@),
        ensures
            (stepped.0@, stepped.1@) == continue_prepare(self@, progress@),
            inv(stepped.0@),
    {
        let mut this = self;
        match progress {
            FsProgress::Perform(preparer, action) => {
                this.stage = Stage::Preparing(preparer);
                (this, Action::Prepare(action))
            },
            FsProgress::Ready => this.enter_network(),
            FsProgress::Failed(error) => this.finish(Err(error)),
        }
    }

    /// Starts on what a proxied policy needs, or goes on to the reaper.
    fn enter_network<E>(self) -> (stepped: (Run, Action<E>))
        requires
            self@.request.command.len() > 0,
            self@.policy is Some,
            self@.identity_cache == self@.engine,
            !self@.tls,
            self@.netns is None,
        ensures
            (stepped.0@, stepped.1@) == enter_network::<E>(self@),
            inv(stepped.0@),
    {
        let mut this = self;
        let proxied: bool = match &this.policy {
            Some(policy) => policy.proxied(),
            None => unreached(),
        };
        if proxied {
            this.stage = Stage::GeneratingCa;
            (this, Action::GenerateCa)
        } else {
            this.enter_reaper()
        }
    }

    /// Creates the network namespace, on Linux, or goes on to the proxy.
    fn enter_netns<E>(self) -> (stepped: (Run, Action<E>))
        requires
            self@.request.command.len() > 0,
            self@.policy is Some,
            self@.identity_cache == self@.engine,
            self@.loaded().proxied(),
            self@.netns is None,
        ensures
            (stepped.0@, stepped.1@) == enter_netns::<E>(self@),
            inv(stepped.0@),
    {
        let mut this = self;
        if this.request.platform == Platform::Linux {
            this.stage = Stage::CreatingNetns;
            (this, Action::CreateNetns)
        } else {
            this.enter_proxy()
        }
    }

    /// Starts the proxy, if all that it needs is there.
    fn enter_proxy<E>(self) -> (stepped: (Run, Action<E>))
        requires
            self@.request.command.len() > 0,
            self@.policy is Some,
            self@.identity_cache == self@.engine,
            self@.loaded().proxied(),
            self@.netns is Some ==> self@.linux(),
        ensures
            (stepped.0@, stepped.1@) == enter_proxy::<E>(self@),
            inv(stepped.0@),
    {
        let mut this = self;
        match &this.policy {
            Some(policy) => match &policy.network.proxy {
                Some(config) => {
                    if !this.engine {
                        return this.finish(Err(SandboxError::EngineMissing));
                    }
                    if !this.identity_cache {
                        return this.finish(Err(SandboxError::CacheMissing));
                    }
                    let launch = ProxyLaunch {
                        config: config.clone(),
                        bind: choose_bind_address(&this.netns, &policy.network.proxy),
                        control_plane: copy_option(&this.request.sources.navigator_endpoint),
                        tls: this.tls,
                    };
                    assert(launch@ == proxy_launch(this@));
                    this.stage = Stage::StartingProxy;
                    (this, Action::StartProxy(launch))
                },
                None => this.finish(Err(SandboxError::ProxyConfigMissing)),
            },
            None => unreached(),
        }
    }

    /// Starts the zombie reaper, on Linux, or goes on to the SSH server.
    fn enter_reaper<E>(self) -> (stepped: (Run, Action<E>))
        requires
            self@.request.command.len() > 0,
            self@.policy is Some,
            self@.identity_cache == self@.engine,
            self@.tls ==> self@.loaded().proxied(),
            self@.netns is Some ==> self@.linux() && self@.loaded().proxied(),
        ensures
            (stepped.0@, stepped.1@) == enter_reaper::<E>(self@),
            inv(stepped.0@),
    {
        let mut this = self;
        if this.request.platform == Platform::Linux {
            this.stage = Stage::StartingReaper;
            (this, Action::StartReaper)
        } else {
            this.enter_ssh()
        }
    }

    /// Starts the SSH server, where one is wanted, or goes on to the child.
    fn enter_ssh<E>(self) -> (stepped: (Run, Action<E>))
        requires
            self@.request.command.len() > 0,
            self@.policy is Some,
            self@.identity_cache == self@.engine,
            self@.tls ==> self@.loaded().proxied(),
            self@.netns is Some ==> self@.linux() && self@.loaded().proxied(),
        ensures
            (stepped.0@, stepped.1@) == enter_ssh::<E>(self@),
            inv(stepped.0@),
    {
        let mut this = self;
        match (&this.request.ssh_listen_addr, &this.policy) {
            (Some(listen_addr), Some(policy)) => {
                let secret: String = match &this.request.ssh_handshake_secret {
                    Some(secret) => secret.clone(),
                    None => String::new(),
                };
                let netns_fd: Option<i32> = match &this.netns {
                    Some(ns) => ns.ns_fd,
                    None => None,
                };
                let launch = SshLaunch {
                    listen_addr: listen_addr.clone(),
                    policy: policy.clone(),
                    workdir: copy_option(&this.request.workdir),
                    secret,
                    skew_secs: this.request.ssh_handshake_skew_secs,
                    netns_fd,
                    proxy_url: choose_session_proxy_url(
                        this.request.platform,
                        &this.netns,
                        &policy.network,
                    ),
                    ca_files: this.tls,
                    env: copy_env(&this.env),
                };
                assert(launch@ == ssh_launch(this@));
                this.stage = Stage::StartingSsh;
                (this, Action::StartSsh(launch))
            },
            _ => this.enter_spawn(),
        }
    }

    /// Starts the child.
    fn enter_spawn<E>(self) -> (stepped: (Run, Action<E>))
        requires
            self@.request.command.len() > 0,
            self@.policy is Some,
            self@.identity_cache == self@.engine,
            self@.tls ==> self@.loaded().proxied(),
            self@.netns is Some ==> self@.linux() && self@.loaded().proxied(),
        ensures
            (stepped.0@, stepped.1@) == enter_spawn::<E>(self@),
            inv(stepped.0@),
    {
        let mut this = self;
        match &this.policy {
            Some(policy) => {
                let launch = ChildLaunch {
                    program: this.request.command[0].clone(),
                    args: copy_from(&this.request.command, 1),
                    workdir: copy_option(&this.request.workdir),
                    interactive: this.request.interactive,
                    policy: policy.clone(),
                    netns: this.netns.is_some(),
                    ca_files: this.tls,
                    env: copy_env(&this.env),
                };
                assert(launch.args.deep_view() =~= this.request.command.deep_view().skip(1));
                assert(launch@ == child_launch(this@));
                this.stage = Stage::SpawningChild;
                (this, Action::SpawnChild(launch))
            },
            None => unreached(),
        }
    }
}

} // verus!
