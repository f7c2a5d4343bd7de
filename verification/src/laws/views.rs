//! What contracts see of a value is what the value holds.
//!
//! Contracts speak of the views of requests, policies, reports and launches.
//! Nothing of such a value is lost or changed in its view.

use crate::error::{ErrorView, SandboxError};
use crate::filesystem::{
    FsAction, FsActionView, FsEvent, FsProgress, FsProgressView, FsStage, FsStageView, Preparer,
};
use crate::load::{
    LoadAction, LoadActionView, LoadEvent, LoadEventView, LoadProgress, LoadProgressView, Loader,
    PolicySources,
};
use crate::model::{ActionView, EventView};
use crate::network::{bind_view, netns_view, proxy_view, BindAddr, Netns};
use crate::policy::{
    FilesystemPolicy, HttpAddr, ModeView, NetworkMode, NetworkPolicy, ProcessPolicy, ProxyPolicy,
    SandboxConfig, SandboxPolicy,
};
use crate::supervisor::{Action, ChildLaunch, Event, ProxyLaunch, RunRequest, SshLaunch};
use vstd::prelude::*;

verus! {

/// A policy is seen as it is, field by field.
pub proof fn law_policy_is_seen_whole(policy: SandboxPolicy, config: SandboxConfig)
    ensures
        policy@.version == policy.version,
        policy@.landlock == policy.landlock,
        policy@.filesystem.read_only == policy.filesystem.read_only.deep_view(),
        policy@.filesystem.read_write == policy.filesystem.read_write.deep_view(),
        policy@.filesystem.with_workdir == policy.filesystem.with_workdir,
        policy@.process.run_as_user == policy.process.run_as_user.deep_view(),
        policy@.process.run_as_group == policy.process.run_as_group.deep_view(),
        policy@.network == policy.network@,
        config@.landlock == config.landlock,
        config@.filesystem.read_only == config.filesystem.read_only.deep_view(),
        config@.filesystem.read_write == config.filesystem.read_write.deep_view(),
        config@.filesystem.with_workdir == config.filesystem.with_workdir,
        config@.process.run_as_user == config.process.run_as_user.deep_view(),
        config@.process.run_as_group == config.process.run_as_group.deep_view(),
{
}

/// So are its parts, each by itself.
pub proof fn law_parts_of_a_policy_are_seen_whole(
    filesystem: FilesystemPolicy,
    process: ProcessPolicy,
    network: NetworkPolicy,
    mode: NetworkMode,
    proxy: ProxyPolicy,
    addr: HttpAddr,
)
    ensures
        filesystem@.read_only == filesystem.read_only.deep_view(),
        filesystem@.read_write == filesystem.read_write.deep_view(),
        filesystem@.with_workdir == filesystem.with_workdir,
        process@.run_as_user == process.run_as_user.deep_view(),
        process@.run_as_group == process.run_as_group.deep_view(),
        network@.mode == network.mode@,
        network.proxy matches Some(p) ==> network@.proxy == Some(p@),
        network.proxy is None ==> network@.proxy is None,
        mode@ is Proxy <==> mode is Proxy,
        mode matches NetworkMode::Unproxied(name) ==> mode@ == ModeView::Unproxied(name@),
        proxy.http_addr matches Some(a) ==> proxy@.http_addr == Some(a@),
        proxy.http_addr is None ==> proxy@.http_addr is None,
        addr@.host == addr.host@,
        addr@.port == addr.port,
{
}

/// A namespace and an address to listen on are seen as they are, and so is the
/// lack of one.
pub proof fn law_network_is_seen_whole(
    netns: Option<Netns>,
    bind: Option<BindAddr>,
    proxy: Option<ProxyPolicy>,
)
    ensures
        netns_view(netns) is Some <==> netns is Some,
        netns matches Some(ns) ==> {
            &&& netns_view(netns)->0.host_ip == ns.host_ip@
            &&& netns_view(netns)->0.ns_fd == ns.ns_fd
        },
        bind_view(bind) is Some <==> bind is Some,
        bind matches Some(addr) ==> {
            &&& bind_view(bind)->0.host == addr.host@
            &&& bind_view(bind)->0.port == addr.port
        },
        proxy_view(proxy) is Some <==> proxy is Some,
        proxy matches Some(p) ==> proxy_view(proxy)->0 == p@,
{
}

/// What the caller wants is seen as it was given.
pub proof fn law_request_is_seen_whole(request: RunRequest, sources: PolicySources)
    ensures
        request@.command == request.command.deep_view(),
        request@.workdir == request.workdir.deep_view(),
        request@.timeout_secs == request.timeout_secs,
        request@.interactive == request.interactive,
        request@.sources == request.sources@,
        request@.ssh_listen_addr == request.ssh_listen_addr.deep_view(),
        request@.ssh_handshake_secret == request.ssh_handshake_secret.deep_view(),
        request@.ssh_handshake_skew_secs == request.ssh_handshake_skew_secs,
        request@.platform == request.platform,
        sources@.sandbox_id == sources.sandbox_id.deep_view(),
        sources@.navigator_endpoint == sources.navigator_endpoint.deep_view(),
        sources@.policy_rules == sources.policy_rules.deep_view(),
        sources@.policy_data == sources.policy_data.deep_view(),
{
}

/// What is started is seen with all that it is started with.
pub proof fn law_launches_are_seen_whole(
    proxy: ProxyLaunch,
    server: SshLaunch,
    child: ChildLaunch,
)
    ensures
        proxy@.config == proxy.config@,
        proxy@.bind == bind_view(proxy.bind),
        proxy@.control_plane == proxy.control_plane.deep_view(),
        proxy@.tls == proxy.tls,
        server@.listen_addr == server.listen_addr@,
        server@.policy == server.policy@,
        server@.workdir == server.workdir.deep_view(),
        server@.secret == server.secret@,
        server@.skew_secs == server.skew_secs,
        server@.netns_fd == server.netns_fd,
        server@.proxy_url == server.proxy_url.deep_view(),
        server@.ca_files == server.ca_files,
        server@.env == server.env.deep_view(),
        child@.program == child.program@,
        child@.args == child.args.deep_view(),
        child@.workdir == child.workdir.deep_view(),
        child@.interactive == child.interactive,
        child@.policy == child.policy@,
        child@.netns == child.netns,
        child@.ca_files == child.ca_files,
        child@.env == child.env.deep_view(),
{
}

/// An error is seen as what it is, with the name or the outside error in it.
pub proof fn law_errors_are_seen_whole<E>(error: SandboxError<E>)
    ensures
        error@ is NoCommand <==> error is NoCommand,
        error@ is PolicyRequired <==> error is PolicyRequired,
        error@ is ProxyConfigMissing <==> error is ProxyConfigMissing,
        error@ is EngineMissing <==> error is EngineMissing,
        error@ is CacheMissing <==> error is CacheMissing,
        error matches SandboxError::UserNotFound(name) ==> error@ == ErrorView::<
            E,
        >::UserNotFound(name@),
        error matches SandboxError::GroupNotFound(name) ==> error@ == ErrorView::<
            E,
        >::GroupNotFound(name@),
        error matches SandboxError::Outside(e) ==> error@ == ErrorView::Outside(e),
{
}

/// What loading asks for, learns and comes to is seen as it is.
pub proof fn law_loading_is_seen_whole<E>(
    action: LoadAction,
    event: LoadEvent<E>,
    progress: LoadProgress<E>,
)
    ensures
        match action {
            LoadAction::LoadFiles { rules, data } => action@ == (LoadActionView::LoadFiles {
                rules: rules@,
                data: data@,
            }),
            LoadAction::QueryConfig => action@ is QueryConfig,
            LoadAction::Fetch { endpoint, sandbox_id } => action@ == (LoadActionView::Fetch {
                endpoint: endpoint@,
                sandbox_id: sandbox_id@,
            }),
            LoadAction::BuildEngine => action@ is BuildEngine,
            LoadAction::Convert => action@ is Convert,
        },
        match event {
            LoadEvent::FilesLoaded(r) => event@ == LoadEventView::FilesLoaded(r),
            LoadEvent::ConfigRead(Ok(config)) => event@ == LoadEventView::<E>::ConfigRead(
                Ok(config@),
            ),
            LoadEvent::ConfigRead(Err(e)) => event@ == LoadEventView::ConfigRead(Err(e)),
            LoadEvent::Fetched(r) => event@ == LoadEventView::Fetched(r),
            LoadEvent::EngineBuilt(r) => event@ == LoadEventView::EngineBuilt(r),
            LoadEvent::Converted(Ok(policy)) => event@ == LoadEventView::<E>::Converted(
                Ok(policy@),
            ),
            LoadEvent::Converted(Err(e)) => event@ == LoadEventView::Converted(Err(e)),
        },
        match progress {
            LoadProgress::Perform(loader, asked) => progress@ == LoadProgressView::<E>::Perform(
                loader,
                asked@,
            ),
            LoadProgress::Loaded { policy, engine } => progress@ == (LoadProgressView::<
                E,
            >::Loaded { policy: policy@, engine }),
            LoadProgress::Failed(error) => progress@ == LoadProgressView::Failed(error@),
        },
{
}

/// What preparing the filesystem asks for and comes to is seen as it is, and so
/// is how far it has come.
pub proof fn law_preparation_is_seen_whole<E>(
    action: FsAction,
    preparer: Preparer,
    progress: FsProgress<E>,
)
    ensures
        match action {
            FsAction::LookupUser(name) => action@ == FsActionView::LookupUser(name@),
            FsAction::LookupGroup(name) => action@ == FsActionView::LookupGroup(name@),
            FsAction::Probe(path) => action@ == FsActionView::Probe(path@),
            FsAction::CreateDir(path) => action@ == FsActionView::CreateDir(path@),
            FsAction::SetOwner { path, uid, gid } => action@ == (FsActionView::SetOwner {
                path: path@,
                uid,
                gid,
            }),
        },
        preparer@.uid == preparer.uid,
        preparer@.gid == preparer.gid,
        match preparer.stage {
            FsStage::User => preparer@.stage is User,
            FsStage::Group => preparer@.stage is Group,
            FsStage::Probing(i) => preparer@.stage == FsStageView::Probing(i as nat),
            FsStage::Creating(i) => preparer@.stage == FsStageView::Creating(i as nat),
            FsStage::Owning(i) => preparer@.stage == FsStageView::Owning(i as nat),
        },
        match progress {
            FsProgress::Perform(at, asked) => progress@ == FsProgressView::<E>::Perform(
                at@,
                asked@,
            ),
            FsProgress::Ready => progress@ is Ready,
            FsProgress::Failed(error) => progress@ == FsProgressView::Failed(error@),
        },
{
}

/// What a run asks for is seen as it is.
pub proof fn law_actions_are_seen_whole<E>(action: Action<E>)
    ensures
        match action {
            Action::Load(asked) => action@ == ActionView::<E>::Load(asked@),
            Action::FetchProviderEnv { endpoint, sandbox_id } => action@ == (ActionView::<
                E,
            >::FetchProviderEnv { endpoint: endpoint@, sandbox_id: sandbox_id@ }),
            Action::Prepare(asked) => action@ == ActionView::<E>::Prepare(asked@),
            Action::GenerateCa => action@ is GenerateCa,
            Action::WriteCaFiles { dir } => action@ == (ActionView::<E>::WriteCaFiles {
                dir: dir@,
            }),
            Action::CreateNetns => action@ is CreateNetns,
            Action::StartProxy(launch) => action@ == ActionView::<E>::StartProxy(launch@),
            Action::StartReaper => action@ is StartReaper,
            Action::StartSsh(launch) => action@ == ActionView::<E>::StartSsh(launch@),
            Action::SpawnChild(launch) => action@ == ActionView::<E>::SpawnChild(launch@),
            Action::Wait { entrypoint_pid, timeout_secs } => action@ == (ActionView::<E>::Wait {
                entrypoint_pid,
                timeout_secs,
            }),
            Action::Kill => action@ is Kill,
            Action::Finish(Ok(code)) => action@ == ActionView::<E>::Finish(Ok(code)),
            Action::Finish(Err(error)) => action@ == ActionView::<E>::Finish(Err(error@)),
        },
{
}

/// What a run learns is seen as it is.
pub proof fn law_events_are_seen_whole<E>(event: Event<E>)
    ensures
        match event {
            Event::Load(report) => event@ == EventView::Load(report@),
            Event::EnvFetched(Some(env)) => event@ == EventView::<E>::EnvFetched(
                Some(env.deep_view()),
            ),
            Event::EnvFetched(None) => event@ == EventView::<E>::EnvFetched(None),
            Event::Prepare(report) => event@ == EventView::Prepare(report),
            Event::CaGenerated(done) => event@ == EventView::<E>::CaGenerated(done),
            Event::CaWritten(done) => event@ == EventView::<E>::CaWritten(done),
            Event::NetnsCreated(netns) => event@ == EventView::<E>::NetnsCreated(
                netns_view(netns),
            ),
            Event::ProxyStarted(result) => event@ == EventView::ProxyStarted(result),
            Event::ReaperStarted => event@ is ReaperStarted,
            Event::SshStarted(result) => event@ == EventView::SshStarted(result),
            Event::ChildSpawned(result) => event@ == EventView::ChildSpawned(result),
            Event::ChildExited(result) => event@ == EventView::ChildExited(result),
            Event::TimedOut => event@ is TimedOut,
            Event::Killed(result) => event@ == EventView::Killed(result),
        },
{
}

/// A loader and a preparer await the report on what they are doing, and no
/// other.
pub proof fn law_only_the_report_is_awaited<E>(
    loader: Loader,
    report: LoadEvent<E>,
    preparer: Preparer,
    event: FsEvent<E>,
    loader_awaits: bool,
    preparer_awaits: bool,
)
    requires
        call_ensures(Loader::awaits::<E>, (&loader, &report), loader_awaits),
        call_ensures(Preparer::awaits::<E>, (&preparer, &event), preparer_awaits),
    ensures
        loader_awaits <==> match loader {
            Loader::LoadingFiles => report is FilesLoaded,
            Loader::QueryingConfig => report is ConfigRead,
            Loader::Fetching => report is Fetched,
            Loader::BuildingEngine => report is EngineBuilt,
            Loader::Converting { .. } => report is Converted,
        },
        preparer_awaits <==> match preparer.stage {
            FsStage::User => event is User,
            FsStage::Group => event is Group,
            FsStage::Probing(_) => event is Exists,
            FsStage::Creating(_) => event is Created,
            FsStage::Owning(_) => event is Owned,
        },
{
}

} // verus!
