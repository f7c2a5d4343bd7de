//! What loading the policy comes to.

use crate::error::{ErrorView, SandboxError};
use crate::load::{
    file_policy, load_awaits, load_begin, load_failure, load_next, load_policy, LoadAction,
    LoadActionView, LoadEvent, LoadEventView, LoadProgress, LoadProgressView, Loader,
    PolicySources, SourcesView,
};
use crate::text::Text;
use vstd::prelude::*;

verus! {

/// Where loading stands after a series of events.
pub open spec fn load_run<E>(
    sources: SourcesView,
    events: Seq<LoadEventView<E>>,
) -> LoadProgressView<E>
    decreases events.len(),
{
    if events.len() == 0 {
        load_begin(sources)
    } else {
        match load_run(sources, events.drop_last()) {
            LoadProgressView::Perform(loader, _) => load_next(loader, events.last()),
            ended => ended,
        }
    }
}

/// Whether each event of a series reports on the operation that was asked for.
pub open spec fn load_admissible<E>(
    sources: SourcesView,
    events: Seq<LoadEventView<E>>,
) -> bool
    decreases events.len(),
{
    events.len() == 0 || {
        &&& load_admissible(sources, events.drop_last())
        &&& load_run(sources, events.drop_last()) matches LoadProgressView::Perform(loader, _)
        &&& load_awaits(loader, events.last())
    }
}

/// What the events so far say of where loading stands.
spec fn load_story<E>(
    sources: SourcesView,
    events: Seq<LoadEventView<E>>,
    progress: LoadProgressView<E>,
) -> bool {
    match progress {
        LoadProgressView::Perform(Loader::LoadingFiles, action) => {
            &&& action is LoadFiles
            &&& sources.has_files()
            &&& events.len() == 0
        },
        LoadProgressView::Perform(Loader::QueryingConfig, action) => {
            &&& action is QueryConfig
            &&& sources.has_files()
            &&& events.len() == 1
            &&& events[0] matches LoadEventView::FilesLoaded(Ok(_))
        },
        LoadProgressView::Perform(Loader::Fetching, action) => {
            &&& action is Fetch
            &&& !sources.has_files()
            &&& sources.has_server()
            &&& events.len() == 0
        },
        LoadProgressView::Perform(Loader::BuildingEngine, action) => {
            &&& action is BuildEngine
            &&& !sources.has_files()
            &&& sources.has_server()
            &&& events.len() == 1
            &&& events[0] matches LoadEventView::Fetched(Ok(network_policies))
            &&& network_policies > 0
        },
        LoadProgressView::Perform(Loader::Converting { engine }, action) => {
            &&& action is Convert
            &&& !sources.has_files()
            &&& sources.has_server()
            &&& events[0] matches LoadEventView::Fetched(Ok(network_policies))
            &&& engine == (network_policies > 0)
            &&& engine ==> events.len() == 2 && (events[1] matches LoadEventView::EngineBuilt(
                Ok(_),
            ))
            &&& !engine ==> events.len() == 1
        },
        LoadProgressView::Loaded { policy, engine } => if sources.has_files() {
            &&& events.len() == 2
            &&& engine
            &&& events[0] matches LoadEventView::FilesLoaded(Ok(_))
            &&& events[1] matches LoadEventView::ConfigRead(Ok(config))
            &&& policy == file_policy(config)
        } else {
            &&& sources.has_server()
            &&& events[0] matches LoadEventView::Fetched(Ok(network_policies))
            &&& engine == (network_policies > 0)
            &&& engine ==> events.len() == 3 && (events[1] matches LoadEventView::EngineBuilt(
                Ok(_),
            ))
            &&& !engine ==> events.len() == 2
            &&& events.last() == LoadEventView::<E>::Converted(Ok(policy))
        },
        LoadProgressView::Failed(ErrorView::PolicyRequired) => {
            &&& !sources.has_files()
            &&& !sources.has_server()
            &&& events.len() == 0
        },
        LoadProgressView::Failed(ErrorView::Outside(e)) => {
            &&& 1 <= events.len() <= 3
            &&& load_failure(events.last()) == Some(e)
        },
        LoadProgressView::Failed(_) => false,
    }
}

proof fn lemma_load_story<E>(sources: SourcesView, events: Seq<LoadEventView<E>>)
    requires
        load_admissible(sources, events),
    ensures
        load_story(sources, events, load_run(sources, events)),
    decreases events.len(),
{
    if events.len() > 0 {
        lemma_load_story(sources, events.drop_last());
        if events.len() > 1 {
            assert(events.drop_last()[0] == events[0]);
        }
        if events.len() > 2 {
            assert(events.drop_last()[1] == events[1]);
        }
    }
}

/// Local files come first: with both of them given, they are loaded at once and
/// nothing is ever fetched, built from a fetched policy or converted. Without
/// them the server is asked at once, and once only, if there is one, and no file
/// is ever loaded. Without either, loading fails at once, and says that a policy
/// is required.
pub proof fn law_files_come_before_server<E>(
    sources: SourcesView,
    events: Seq<LoadEventView<E>>,
)
    requires
        load_admissible(sources, events),
    ensures
        sources.has_files() ==> load_begin::<E>(sources) == LoadProgressView::<E>::Perform(
            Loader::LoadingFiles,
            LoadActionView::LoadFiles {
                rules: sources.policy_rules->0,
                data: sources.policy_data->0,
            },
        ),
        !sources.has_files() && sources.has_server() ==> load_begin::<E>(sources)
            == LoadProgressView::<E>::Perform(
            Loader::Fetching,
            LoadActionView::Fetch {
                endpoint: sources.navigator_endpoint->0,
                sandbox_id: sources.sandbox_id->0,
            },
        ),
        load_begin::<E>(sources) == LoadProgressView::<E>::Failed(ErrorView::PolicyRequired)
            <==> !sources.has_files() && !sources.has_server(),
        load_run(sources, events) matches LoadProgressView::Perform(_, action) ==> {
            &&& sources.has_files() ==> action is LoadFiles || action is QueryConfig
            &&& !sources.has_files() ==> sources.has_server() && (action is Fetch
                || action is BuildEngine || action is Convert)
            &&& action is LoadFiles || action is Fetch <==> events.len() == 0
        },
{
    lemma_load_story(sources, events);
}

/// A policy from local files always runs behind a proxy, with an engine to
/// decide for it, and is otherwise what the files configure. A fetched policy
/// is the one that the server gave, with an engine exactly where it has network
/// policies.
pub proof fn law_loaded_policy<E>(sources: SourcesView, events: Seq<LoadEventView<E>>)
    requires
        load_admissible(sources, events),
        load_run(sources, events) is Loaded,
    ensures
        load_run(sources, events) matches LoadProgressView::Loaded { policy, engine } && if sources.has_files() {
            &&& engine
            &&& policy.proxied()
            &&& policy.network.proxy is Some
            &&& events.last() matches LoadEventView::ConfigRead(Ok(config))
            &&& policy == file_policy(config)
        } else {
            &&& events.first() matches LoadEventView::Fetched(Ok(network_policies))
            &&& engine == (network_policies > 0)
            &&& events.last() == LoadEventView::<E>::Converted(Ok(policy))
        },
{
    lemma_load_story(sources, events);
}

/// Loading succeeds as soon as the files' configuration has been read, or the
/// fetched policy has been converted.
pub proof fn law_loading_succeeds<E>(sources: SourcesView, events: Seq<LoadEventView<E>>)
    requires
        load_admissible(sources, events),
        events.len() > 0,
    ensures
        events.last() matches LoadEventView::ConfigRead(Ok(config)) ==> load_run(sources, events)
            == (LoadProgressView::<E>::Loaded { policy: file_policy(config), engine: true }),
        events.last() matches LoadEventView::Converted(Ok(policy)) ==> {
            &&& events.first() matches LoadEventView::Fetched(Ok(network_policies))
            &&& load_run(sources, events) == (LoadProgressView::<E>::Loaded {
                policy,
                engine: (network_policies > 0),
            })
        },
{
    lemma_load_story(sources, events);
    lemma_load_story(sources, events.drop_last());
}

/// Loading takes at most three operations, and asks for none after a failure.
pub proof fn law_loading_is_bounded<E>(sources: SourcesView, events: Seq<LoadEventView<E>>)
    requires
        load_admissible(sources, events),
    ensures
        events.len() <= 3,
        events.len() == 3 ==> !(load_run(sources, events) is Perform),
        events.len() > 0 && load_failure(events.last()) is Some ==> !(load_run(
            sources,
            events,
        ) is Perform),
{
    lemma_load_story(sources, events);
}

/// Loading fails for want of a source, or with the error of the last operation,
/// and for no other reason.
pub proof fn law_loading_fails_with_last_error<E>(
    sources: SourcesView,
    events: Seq<LoadEventView<E>>,
)
    requires
        load_admissible(sources, events),
    ensures
        load_run(sources, events) matches LoadProgressView::Failed(error) ==> {
            ||| error == ErrorView::<E>::PolicyRequired && !sources.has_files()
                && !sources.has_server()
            ||| events.len() > 0 && (load_failure(events.last()) matches Some(e) && error
                == ErrorView::Outside(e))
        },
        events.len() > 0 && load_failure(events.last()) is Some ==> load_run(
            sources,
            events,
        ) is Failed,
{
    lemma_load_story(sources, events);
}

/// The operation that loading asks for, if it asks for one.
pub open spec fn load_asked<E>(progress: LoadProgressView<E>) -> Option<LoadActionView> {
    match progress {
        LoadProgressView::Perform(_, action) => Some(action),
        _ => None,
    }
}

/// An engine counts only once it was made. A policy from local files is there
/// after exactly two operations, and so is a fetched policy without network
/// policies; a fetched policy with network policies takes a third one in
/// between, which makes the engine from it.
pub proof fn law_engine_is_built_before_it_counts<E>(
    sources: SourcesView,
    events: Seq<LoadEventView<E>>,
)
    requires
        load_admissible(sources, events),
    ensures
        load_run(sources, events) matches LoadProgressView::Loaded { policy, engine } ==> if (
        sources.policy_rules is Some && sources.policy_data is Some) {
            &&& engine
            &&& events.len() == 2
            &&& events[0] matches LoadEventView::FilesLoaded(Ok(_))
            &&& events[1] matches LoadEventView::ConfigRead(Ok(_))
        } else {
            &&& events[0] matches LoadEventView::Fetched(Ok(network_policies))
            &&& engine <==> network_policies > 0
            &&& engine ==> events.len() == 3 && (events[1] matches LoadEventView::EngineBuilt(
                Ok(_),
            ))
            &&& !engine ==> events.len() == 2
            &&& events.last() == LoadEventView::<E>::Converted(Ok(policy))
        },
{
    lemma_load_story(sources, events);
}

/// What local files configure is what is enforced: the paths, the strictness and
/// the account stay as they were read, with user and group alike. The rest is
/// the same for all files: all traffic goes through a proxy that listens where
/// it chooses.
pub proof fn law_files_are_enforced_as_configured<E>(
    sources: SourcesView,
    events: Seq<LoadEventView<E>>,
)
    requires
        load_admissible(sources, events),
        events.len() > 0,
    ensures
        events.last() matches LoadEventView::ConfigRead(Ok(config)) ==> {
            &&& load_run(sources, events) matches LoadProgressView::Loaded { policy, engine }
            &&& engine
            &&& policy.filesystem.read_only == config.filesystem.read_only
            &&& policy.filesystem.read_write == config.filesystem.read_write
            &&& policy.filesystem.with_workdir == config.filesystem.with_workdir
            &&& policy.landlock == config.landlock
            &&& policy.process.run_as_user == config.process.run_as_user
            &&& policy.process.run_as_group == config.process.run_as_group
            &&& policy.network.mode is Proxy
            &&& policy.network.proxy matches Some(proxy)
            &&& proxy.http_addr is None
            &&& policy.version == 1
        },
{
}

/// Which operation is asked for depends on what was given and what was reported,
/// and on nothing else. The two files are loaded if both are given, the server
/// is asked if they are not, and an engine is built for any number of network
/// policies but none.
pub proof fn law_loading_asks_for_what_is_missing<E>(
    sources: SourcesView,
    events: Seq<LoadEventView<E>>,
    rules: Text,
    data: Text,
    endpoint: Text,
    sandbox_id: Text,
)
    requires
        load_admissible(sources, events),
    ensures
        load_asked(load_run(sources, events)) == Some(LoadActionView::LoadFiles { rules, data })
            <==> {
            &&& events.len() == 0
            &&& sources.policy_rules == Some(rules)
            &&& sources.policy_data == Some(data)
        },
        load_asked(load_run(sources, events)) == Some(
            LoadActionView::Fetch { endpoint, sandbox_id },
        ) <==> {
            &&& events.len() == 0
            &&& sources.policy_rules is None || sources.policy_data is None
            &&& sources.navigator_endpoint == Some(endpoint)
            &&& sources.sandbox_id == Some(sandbox_id)
        },
        load_asked(load_run(sources, events)) == Some(LoadActionView::QueryConfig) <==> {
            &&& events.len() > 0
            &&& events.last() matches LoadEventView::FilesLoaded(Ok(_))
        },
        load_asked(load_run(sources, events)) == Some(LoadActionView::BuildEngine) <==> {
            &&& events.len() > 0
            &&& events.last() matches LoadEventView::Fetched(Ok(network_policies))
            &&& network_policies > 0
        },
        load_asked(load_run(sources, events)) == Some(LoadActionView::Convert) <==> {
            &&& events.len() > 0
            &&& match events.last() {
                LoadEventView::Fetched(Ok(network_policies)) => network_policies == 0,
                LoadEventView::EngineBuilt(Ok(_)) => true,
                _ => false,
            }
        },
{
    lemma_load_story(sources, events);
    if events.len() > 0 {
        lemma_load_story(sources, events.drop_last());
    }
}

/// Loading fails exactly where there is no source, or where the last operation
/// reported an error, which is handed on as it came.
pub proof fn law_loading_fails_exactly_with_its_reports<E>(
    sources: SourcesView,
    events: Seq<LoadEventView<E>>,
    error: E,
)
    requires
        load_admissible(sources, events),
    ensures
        load_run(sources, events) == LoadProgressView::Failed(ErrorView::Outside(error)) <==> {
            &&& events.len() > 0
            &&& match events.last() {
                LoadEventView::FilesLoaded(Err(e)) => e == error,
                LoadEventView::ConfigRead(Err(e)) => e == error,
                LoadEventView::Fetched(Err(e)) => e == error,
                LoadEventView::EngineBuilt(Err(e)) => e == error,
                LoadEventView::Converted(Err(e)) => e == error,
                _ => false,
            }
        },
        load_run(sources, events) == LoadProgressView::<E>::Failed(ErrorView::PolicyRequired)
            <==> {
            &&& sources.policy_rules is None || sources.policy_data is None
            &&& sources.navigator_endpoint is None || sources.sandbox_id is None
        },
        load_run(sources, events) matches LoadProgressView::Failed(reason) ==> reason is Outside
            || reason is PolicyRequired,
{
    lemma_load_story(sources, events);
    if events.len() > 0 {
        lemma_load_story(sources, events.drop_last());
    }
}

/// Each operation is answered by a report on that operation, and by no other;
/// nothing is awaited once loading is over.
pub proof fn law_loading_awaits_its_answer<E>(
    sources: SourcesView,
    events: Seq<LoadEventView<E>>,
    event: LoadEventView<E>,
)
    requires
        load_admissible(sources, events),
    ensures
        load_admissible(sources, events.push(event)) <==> match load_asked(
            load_run(sources, events),
        ) {
            Some(LoadActionView::LoadFiles { .. }) => event is FilesLoaded,
            Some(LoadActionView::QueryConfig) => event is ConfigRead,
            Some(LoadActionView::Fetch { .. }) => event is Fetched,
            Some(LoadActionView::BuildEngine) => event is EngineBuilt,
            Some(LoadActionView::Convert) => event is Converted,
            None => false,
        },
{
    lemma_load_story(sources, events);
    assert(events.push(event).drop_last() =~= events);
}

/// The loader itself, on any report that it awaits: an engine is asked for
/// before a policy with network policies is converted, a configuration is
/// enforced as it was read, a converted policy comes out as it went in, and an
/// error is handed on.
pub proof fn law_loader_steps<E>(loader: Loader, event: LoadEvent<E>, progress: LoadProgress<E>)
    requires
        call_ensures(Loader::step::<E>, (loader, event), progress),
    ensures
        match event {
            LoadEvent::FilesLoaded(Ok(_)) => progress == LoadProgress::<E>::Perform(
                Loader::QueryingConfig,
                LoadAction::QueryConfig,
            ),
            LoadEvent::Fetched(Ok(network_policies)) => if network_policies > 0 {
                progress == LoadProgress::<E>::Perform(
                    Loader::BuildingEngine,
                    LoadAction::BuildEngine,
                )
            } else {
                progress == LoadProgress::<E>::Perform(
                    (Loader::Converting { engine: false }),
                    LoadAction::Convert,
                )
            },
            LoadEvent::EngineBuilt(Ok(_)) => progress == LoadProgress::<E>::Perform(
                (Loader::Converting { engine: true }),
                LoadAction::Convert,
            ),
            LoadEvent::ConfigRead(Ok(config)) => {
                &&& progress matches LoadProgress::Loaded { policy, engine }
                &&& engine
                &&& policy.version == 1
                &&& policy.filesystem.read_only.deep_view()
                    == config.filesystem.read_only.deep_view()
                &&& policy.filesystem.read_write.deep_view()
                    == config.filesystem.read_write.deep_view()
                &&& policy.filesystem.with_workdir == config.filesystem.with_workdir
                &&& policy.landlock == config.landlock
                &&& policy.process.run_as_user.deep_view()
                    == config.process.run_as_user.deep_view()
                &&& policy.process.run_as_group.deep_view()
                    == config.process.run_as_group.deep_view()
                &&& policy.network.mode is Proxy
                &&& policy.network.proxy matches Some(proxy)
                &&& proxy.http_addr is None
            },
            LoadEvent::Converted(Ok(converted)) => {
                &&& progress matches LoadProgress::Loaded { policy, engine }
                &&& policy@ == converted@
                &&& loader matches Loader::Converting { engine: built } ==> engine == built
            },
            LoadEvent::FilesLoaded(Err(e)) => progress == LoadProgress::Failed(
                SandboxError::Outside(e),
            ),
            LoadEvent::ConfigRead(Err(e)) => progress == LoadProgress::Failed(
                SandboxError::Outside(e),
            ),
            LoadEvent::Fetched(Err(e)) => progress == LoadProgress::Failed(
                SandboxError::Outside(e),
            ),
            LoadEvent::EngineBuilt(Err(e)) => progress == LoadProgress::Failed(
                SandboxError::Outside(e),
            ),
            LoadEvent::Converted(Err(e)) => progress == LoadProgress::Failed(
                SandboxError::Outside(e),
            ),
        },
{
}

/// The start of loading: both files if both were given, else the server if both
/// its address and the sandbox's id were given, else a refusal.
pub proof fn law_loading_starts_at_the_first_source<E>(
    sources: PolicySources,
    progress: LoadProgress<E>,
)
    requires
        call_ensures(load_policy::<E>, (&sources,), progress),
    ensures
        match (
            sources.policy_rules,
            sources.policy_data,
            sources.navigator_endpoint,
            sources.sandbox_id,
        ) {
            (Some(given_rules), Some(given_data), _, _) => {
                &&& progress matches LoadProgress::Perform(
                    Loader::LoadingFiles,
                    LoadAction::LoadFiles { rules, data },
                )
                &&& rules@ == given_rules@
                &&& data@ == given_data@
            },
            (_, _, Some(given_endpoint), Some(given_id)) => {
                &&& progress matches LoadProgress::Perform(
                    Loader::Fetching,
                    LoadAction::Fetch { endpoint, sandbox_id },
                )
                &&& endpoint@ == given_endpoint@
                &&& sandbox_id@ == given_id@
            },
            _ => progress == LoadProgress::<E>::Failed(SandboxError::PolicyRequired),
        },
{
}

} // verus!
