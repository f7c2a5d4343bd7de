//! Where the sandbox policy comes from.
//!
//! Loading a policy takes several outside operations. The library decides which
//! one comes next and what the results add up to; whoever drives it performs
//! each [`LoadAction`] and reports back with a [`LoadEvent`].

use crate::error::{ErrorView, SandboxError};
use crate::policy::{
    ConfigView, ModeView, NetworkMode, NetworkPolicy, NetworkView, PolicyView, ProxyPolicy,
    ProxyView, SandboxConfig, SandboxPolicy,
};
use crate::text::Text;
use vstd::prelude::*;

verus! {

/// The places that a policy can be had from, as far as they were given.
#[derive(Debug, PartialEq, Eq)]
pub struct PolicySources {
    /// The sandbox's id on the server.
    pub sandbox_id: Option<String>,
    /// The server's address.
    pub navigator_endpoint: Option<String>,
    /// The file with the rules.
    pub policy_rules: Option<String>,
    /// The file with the data that the rules work on.
    pub policy_data: Option<String>,
}

/// How far loading has come.
#[derive(Clone, Copy, Debug, PartialEq, Eq)]
pub enum Loader {
    /// The engine is being made from local files.
    LoadingFiles,
    /// The engine is being asked for the sandbox's configuration.
    QueryingConfig,
    /// The policy is being fetched from the server.
    Fetching,
    /// The engine is being made from the fetched policy.
    BuildingEngine,
    /// The fetched policy is being converted.
    Converting {
        /// Whether an engine was made from it.
        engine: bool,
    },
}

/// An operation that loading needs.
#[derive(Debug, PartialEq, Eq)]
pub enum LoadAction {
    /// Make an engine from two local files.
    LoadFiles {
        /// The file with the rules.
        rules: String,
        /// The file with the data.
        data: String,
    },
    /// Ask the engine for the sandbox's configuration.
    QueryConfig,
    /// Fetch the policy from the server.
    Fetch {
        /// The server's address.
        endpoint: String,
        /// The sandbox's id.
        sandbox_id: String,
    },
    /// Make an engine from the fetched policy.
    BuildEngine,
    /// Convert the fetched policy.
    Convert,
}

/// What came of an operation.
#[derive(Debug, PartialEq, Eq)]
pub enum LoadEvent<E> {
    /// The local files were loaded, or not.
    FilesLoaded(Result<(), E>),
    /// The configuration was read, or not.
    ConfigRead(Result<SandboxConfig, E>),
    /// The policy was fetched, with so many network policies in it, or not.
    Fetched(Result<usize, E>),
    /// The engine was made from the fetched policy, or not.
    EngineBuilt(Result<(), E>),
    /// The fetched policy was converted, or not.
    Converted(Result<SandboxPolicy, E>),
}

/// What follows.
#[derive(Debug, PartialEq, Eq)]
pub enum LoadProgress<E> {
    /// One more operation is needed.
    Perform(Loader, LoadAction),
    /// The policy is there.
    Loaded {
        /// The policy.
        policy: SandboxPolicy,
        /// Whether there is an engine.
        engine: bool,
    },
    /// There is no policy.
    Failed(SandboxError<E>),
}

/// What [`PolicySources`] hold.
#[verifier::ext_equal]
pub struct SourcesView {
    pub sandbox_id: Option<Text>,
    pub navigator_endpoint: Option<Text>,
    pub policy_rules: Option<Text>,
    pub policy_data: Option<Text>,
}

/// What a [`LoadAction`] holds.
#[verifier::ext_equal]
pub enum LoadActionView {
    LoadFiles { rules: Text, data: Text },
    QueryConfig,
    Fetch { endpoint: Text, sandbox_id: Text },
    BuildEngine,
    Convert,
}

/// What a [`LoadEvent`] holds.
#[verifier::ext_equal]
pub enum LoadEventView<E> {
    FilesLoaded(Result<(), E>),
    ConfigRead(Result<ConfigView, E>),
    Fetched(Result<usize, E>),
    EngineBuilt(Result<(), E>),
    Converted(Result<PolicyView, E>),
}

/// What a [`LoadProgress`] holds.
#[verifier::ext_equal]
pub enum LoadProgressView<E> {
    Perform(Loader, LoadActionView),
    Loaded { policy: PolicyView, engine: bool },
    Failed(ErrorView<E>),
}

impl View for PolicySources {
    type V = SourcesView;

    open spec fn view(&self) -> SourcesView {
        SourcesView {
            sandbox_id: self.sandbox_id.deep_view(),
            navigator_endpoint: self.navigator_endpoint.deep_view(),
            policy_rules: self.policy_rules.deep_view(),
            policy_data: self.policy_data.deep_view(),
        }
    }
}

impl View for LoadAction {
    type V = LoadActionView;

    open spec fn view(&self) -> LoadActionView {
        match *self {
            LoadAction::LoadFiles { rules, data } => LoadActionView::LoadFiles {
                rules: rules@,
                data: data@,
            },
            LoadAction::QueryConfig => LoadActionView::QueryConfig,
            LoadAction::Fetch { endpoint, sandbox_id } => LoadActionView::Fetch {
                endpoint: endpoint@,
                sandbox_id: sandbox_id@,
            },
            LoadAction::BuildEngine => LoadActionView::BuildEngine,
            LoadAction::Convert => LoadActionView::Convert,
        }
    }
}

impl<E> View for LoadEvent<E> {
    type V = LoadEventView<E>;

    open spec fn view(&self) -> LoadEventView<E> {
        match *self {
            LoadEvent::FilesLoaded(r) => LoadEventView::FilesLoaded(r),
            LoadEvent::ConfigRead(Ok(config)) => LoadEventView::ConfigRead(Ok(config@)),
            LoadEvent::ConfigRead(Err(e)) => LoadEventView::ConfigRead(Err(e)),
            LoadEvent::Fetched(r) => LoadEventView::Fetched(r),
            LoadEvent::EngineBuilt(r) => LoadEventView::EngineBuilt(r),
            LoadEvent::Converted(Ok(policy)) => LoadEventView::Converted(Ok(policy@)),
            LoadEvent::Converted(Err(e)) => LoadEventView::Converted(Err(e)),
        }
    }
}

impl<E> View for LoadProgress<E> {
    type V = LoadProgressView<E>;

    open spec fn view(&self) -> LoadProgressView<E> {
        match *self {
            LoadProgress::Perform(loader, action) => LoadProgressView::Perform(loader, action@),
            LoadProgress::Loaded { policy, engine } => LoadProgressView::Loaded {
                policy: policy@,
                engine,
            },
            LoadProgress::Failed(error) => LoadProgressView::Failed(error@),
        }
    }
}

impl SourcesView {
    /// Whether local policy files were given: the rules and their data.
    pub open spec fn has_files(self) -> bool {
        self.policy_rules is Some && self.policy_data is Some
    }

    /// Whether the sandbox can be looked up on a server.
    pub open spec fn has_server(self) -> bool {
        self.sandbox_id is Some && self.navigator_endpoint is Some
    }
}

/// The policy that local files configure: version 1, with all traffic through a
/// proxy that listens where it chooses.
pub open spec fn file_policy(config: ConfigView) -> PolicyView {
    PolicyView {
        version: 1,
        filesystem: config.filesystem,
        network: NetworkView {
            mode: ModeView::Proxy,
            proxy: Some(ProxyView { http_addr: None }),
        },
        landlock: config.landlock,
        process: config.process,
    }
}

/// The first operation: local files come before the server.
pub open spec fn load_begin<E>(sources: SourcesView) -> LoadProgressView<E> {
    if sources.has_files() {
        LoadProgressView::Perform(
            Loader::LoadingFiles,
            LoadActionView::LoadFiles {
                rules: sources.policy_rules->0,
                data: sources.policy_data->0,
            },
        )
    } else if sources.has_server() {
        LoadProgressView::Perform(
            Loader::Fetching,
            LoadActionView::Fetch {
                endpoint: sources.navigator_endpoint->0,
                sandbox_id: sources.sandbox_id->0,
            },
        )
    } else {
        LoadProgressView::Failed(ErrorView::PolicyRequired)
    }
}

/// Whether an event reports on the operation that was asked for last.
pub open spec fn load_awaits<E>(loader: Loader, event: LoadEventView<E>) -> bool {
    match loader {
        Loader::LoadingFiles => event is FilesLoaded,
        Loader::QueryingConfig => event is ConfigRead,
        Loader::Fetching => event is Fetched,
        Loader::BuildingEngine => event is EngineBuilt,
        Loader::Converting { .. } => event is Converted,
    }
}

/// The error that an event reports, if it reports one.
pub open spec fn load_failure<E>(event: LoadEventView<E>) -> Option<E> {
    match event {
        LoadEventView::FilesLoaded(Err(e)) => Some(e),
        LoadEventView::ConfigRead(Err(e)) => Some(e),
        LoadEventView::Fetched(Err(e)) => Some(e),
        LoadEventView::EngineBuilt(Err(e)) => Some(e),
        LoadEventView::Converted(Err(e)) => Some(e),
        _ => None,
    }
}

/// What follows an event. Every failure ends the loading.
pub open spec fn load_next<E>(loader: Loader, event: LoadEventView<E>) -> LoadProgressView<E> {
    match (load_failure(event), event) {
        (Some(e), _) => LoadProgressView::Failed(ErrorView::Outside(e)),
        (None, LoadEventView::FilesLoaded(_)) => LoadProgressView::Perform(
            Loader::QueryingConfig,
            LoadActionView::QueryConfig,
        ),
        (None, LoadEventView::ConfigRead(config)) => LoadProgressView::Loaded {
            policy: file_policy(config->Ok_0),
            engine: true,
        },
        (None, LoadEventView::Fetched(network_policies)) => if network_policies->Ok_0 == 0 {
            LoadProgressView::Perform(
                Loader::Converting { engine: false },
                LoadActionView::Convert,
            )
        } else {
            LoadProgressView::Perform(Loader::BuildingEngine, LoadActionView::BuildEngine)
        },
        (None, LoadEventView::EngineBuilt(_)) => LoadProgressView::Perform(
            Loader::Converting { engine: true },
            LoadActionView::Convert,
        ),
        (None, LoadEventView::Converted(policy)) => LoadProgressView::Loaded {
            policy: policy->Ok_0,
            engine: loader->engine,
        },
    }
}

/// Starts loading the policy.
///
/// 1. With both a rules file and a data file, the engine is made from them.
/// 2. Otherwise, with a sandbox id and a server, the policy is fetched.
/// 3. Otherwise there is no policy to be had.
pub fn load_policy<E>(sources: &PolicySources) -> (progress: LoadProgress<E>)
    ensures
        progress@ == load_begin::<E>(sources@),
{
    match (&sources.policy_rules, &sources.policy_data) {
        (Some(rules), Some(data)) => {
            return LoadProgress::Perform(
                Loader::LoadingFiles,
                LoadAction::LoadFiles { rules: rules.clone(), data: data.clone() },
            );
        },
        _ => {},
    }
    match (&sources.sandbox_id, &sources.navigator_endpoint) {
        (Some(id), Some(endpoint)) => LoadProgress::Perform(
            Loader::Fetching,
            LoadAction::Fetch { endpoint: endpoint.clone(), sandbox_id: id.clone() },
        ),
        _ => LoadProgress::Failed(SandboxError::PolicyRequired),
    }
}

impl Loader {
    /// Whether an event reports on the operation that was asked for last.
    pub fn awaits<E>(&self, event: &LoadEvent<E>) -> (awaited: bool)
        ensures
            awaited == load_awaits(*self, event@),
    {
        match (self, event) {
            (Loader::LoadingFiles, LoadEvent::FilesLoaded(_)) => true,
            (Loader::QueryingConfig, LoadEvent::ConfigRead(_)) => true,
            (Loader::Fetching, LoadEvent::Fetched(_)) => true,
            (Loader::BuildingEngine, LoadEvent::EngineBuilt(_)) => true,
            (Loader::Converting { .. }, LoadEvent::Converted(_)) => true,
            _ => false,
        }
    }

    /// Takes the report on the last operation and says what follows.
    pub fn step<E>(self, event: LoadEvent<E>) -> (progress: LoadProgress<E>)
        requires
            load_awaits(self, event@),
        ensures
            progress@ == load_next(self, event@),
    {
        match event {
            LoadEvent::FilesLoaded(Ok(_)) => LoadProgress::Perform(
                Loader::QueryingConfig,
                LoadAction::QueryConfig,
            ),
            LoadEvent::ConfigRead(Ok(config)) => LoadProgress::Loaded {
                policy: SandboxPolicy {
                    version: 1,
                    filesystem: config.filesystem,
                    network: NetworkPolicy {
                        mode: NetworkMode::Proxy,
                        proxy: Some(ProxyPolicy { http_addr: None }),
                    },
                    landlock: config.landlock,
                    process: config.process,
                },
                engine: true,
            },
            LoadEvent::Fetched(Ok(network_policies)) => if network_policies == 0 {
                LoadProgress::Perform(Loader::Converting { engine: false }, LoadAction::Convert)
            } else {
                LoadProgress::Perform(Loader::BuildingEngine, LoadAction::BuildEngine)
            },
            LoadEvent::EngineBuilt(Ok(_)) => LoadProgress::Perform(
                Loader::Converting { engine: true },
                LoadAction::Convert,
            ),
            LoadEvent::Converted(Ok(policy)) => {
                let engine: bool = match self {
                    Loader::Converting { engine } => engine,
                    _ => false,
                };
                LoadProgress::Loaded { policy, engine }
            },
            LoadEvent::FilesLoaded(Err(e)) => LoadProgress::Failed(SandboxError::Outside(e)),
            LoadEvent::ConfigRead(Err(e)) => LoadProgress::Failed(SandboxError::Outside(e)),
            LoadEvent::Fetched(Err(e)) => LoadProgress::Failed(SandboxError::Outside(e)),
            LoadEvent::EngineBuilt(Err(e)) => LoadProgress::Failed(SandboxError::Outside(e)),
            LoadEvent::Converted(Err(e)) => LoadProgress::Failed(SandboxError::Outside(e)),
        }
    }
}

} // verus!
