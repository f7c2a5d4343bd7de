use navigator_sandbox::error::SandboxError;
use navigator_sandbox::load::{
    load_policy, LoadAction, LoadEvent, LoadProgress, Loader, PolicySources,
};
use navigator_sandbox::policy::{
    FilesystemPolicy, LandlockCompatibility, NetworkMode, NetworkPolicy, ProcessPolicy,
    ProxyPolicy, SandboxConfig, SandboxPolicy,
};

fn text(s: &str) -> Option<String> {
    Some(s.to_string())
}

fn files() -> PolicySources {
    PolicySources {
        sandbox_id: None,
        navigator_endpoint: None,
        policy_rules: text("rules.rego"),
        policy_data: text("data.yaml"),
    }
}

fn server() -> PolicySources {
    PolicySources {
        sandbox_id: text("sb-1"),
        navigator_endpoint: text("http://navigator:8080"),
        policy_rules: None,
        policy_data: None,
    }
}

fn policy() -> SandboxPolicy {
    SandboxPolicy {
        version: 3,
        filesystem: FilesystemPolicy {
            read_only: vec!["/usr".to_string()],
            read_write: vec!["/sandbox".to_string()],
            with_workdir: true,
        },
        network: NetworkPolicy { mode: NetworkMode::Unproxied("block".to_string()), proxy: None },
        landlock: LandlockCompatibility::HardRequirement,
        process: ProcessPolicy { run_as_user: None, run_as_group: None },
    }
}

fn perform(progress: LoadProgress<&'static str>) -> (Loader, LoadAction) {
    match progress {
        LoadProgress::Perform(loader, action) => (loader, action),
        other => panic!("nothing to perform: {:?}", other),
    }
}

#[test]
fn files_make_a_proxied_policy() {
    let (loader, action) = perform(load_policy(&files()));
    assert_eq!(
        action,
        LoadAction::LoadFiles {
            rules: "rules.rego".to_string(),
            data: "data.yaml".to_string()
        }
    );
    let (loader, action) = perform(loader.step(LoadEvent::FilesLoaded(Ok(()))));
    assert_eq!(action, LoadAction::QueryConfig);
    let config = SandboxConfig {
        filesystem: policy().filesystem,
        landlock: LandlockCompatibility::BestEffort,
        process: ProcessPolicy { run_as_user: text("sandbox"), run_as_group: None },
    };
    let progress: LoadProgress<&str> = loader.step(LoadEvent::ConfigRead(Ok(config)));
    assert_eq!(
        progress,
        LoadProgress::Loaded {
            policy: SandboxPolicy {
                version: 1,
                filesystem: policy().filesystem,
                network: NetworkPolicy {
                    mode: NetworkMode::Proxy,
                    proxy: Some(ProxyPolicy { http_addr: None }),
                },
                landlock: LandlockCompatibility::BestEffort,
                process: ProcessPolicy { run_as_user: text("sandbox"), run_as_group: None },
            },
            engine: true,
        }
    );
}

#[test]
fn files_come_before_the_server() {
    let sources = PolicySources {
        sandbox_id: text("sb-1"),
        navigator_endpoint: text("http://navigator:8080"),
        policy_rules: text("rules.rego"),
        policy_data: text("data.yaml"),
    };
    let (loader, _) = perform(load_policy(&sources));
    assert_eq!(loader, Loader::LoadingFiles);
    let (loader, action) = perform(loader.step(LoadEvent::FilesLoaded(Ok(()))));
    assert_eq!(action, LoadAction::QueryConfig);
    let config = SandboxConfig {
        filesystem: policy().filesystem,
        landlock: LandlockCompatibility::BestEffort,
        process: ProcessPolicy { run_as_user: None, run_as_group: None },
    };
    let progress: LoadProgress<&str> = loader.step(LoadEvent::ConfigRead(Ok(config)));
    match progress {
        LoadProgress::Loaded { engine, .. } => assert!(engine),
        other => panic!("not loaded: {:?}", other),
    }
}

#[test]
fn one_file_is_not_enough() {
    let mut sources = server();
    sources.policy_rules = text("rules.rego");
    let (_, action) = perform(load_policy(&sources));
    assert_eq!(
        action,
        LoadAction::Fetch {
            endpoint: "http://navigator:8080".to_string(),
            sandbox_id: "sb-1".to_string()
        }
    );
}

#[test]
fn fetched_policy_without_network_policies_has_no_engine() {
    let (loader, _) = perform(load_policy(&server()));
    let (loader, action) = perform(loader.step(LoadEvent::Fetched(Ok(0))));
    assert_eq!(action, LoadAction::Convert);
    let progress: LoadProgress<&str> = loader.step(LoadEvent::Converted(Ok(policy())));
    assert_eq!(progress, LoadProgress::Loaded { policy: policy(), engine: false });
}

#[test]
fn fetched_policy_with_network_policies_has_an_engine() {
    let (loader, _) = perform(load_policy(&server()));
    let (loader, action) = perform(loader.step(LoadEvent::Fetched(Ok(2))));
    assert_eq!(action, LoadAction::BuildEngine);
    let (loader, action) = perform(loader.step(LoadEvent::EngineBuilt(Ok(()))));
    assert_eq!(action, LoadAction::Convert);
    let progress: LoadProgress<&str> = loader.step(LoadEvent::Converted(Ok(policy())));
    assert_eq!(progress, LoadProgress::Loaded { policy: policy(), engine: true });
}

#[test]
fn without_a_source_a_policy_is_required() {
    let sources = PolicySources {
        sandbox_id: text("sb-1"),
        navigator_endpoint: None,
        policy_rules: None,
        policy_data: text("data.yaml"),
    };
    let progress: LoadProgress<&str> = load_policy(&sources);
    assert_eq!(progress, LoadProgress::Failed(SandboxError::PolicyRequired));
}

#[test]
fn failing_operation_ends_the_loading() {
    let failed = LoadProgress::Failed(SandboxError::Outside("broken"));
    assert_eq!(Loader::LoadingFiles.step(LoadEvent::FilesLoaded(Err("broken"))), failed);
    assert_eq!(Loader::QueryingConfig.step(LoadEvent::ConfigRead(Err("broken"))), failed);
    assert_eq!(Loader::Fetching.step(LoadEvent::Fetched(Err("broken"))), failed);
    assert_eq!(Loader::BuildingEngine.step(LoadEvent::EngineBuilt(Err("broken"))), failed);
    assert_eq!(
        Loader::Converting { engine: true }.step(LoadEvent::Converted(Err("broken"))),
        failed
    );
}

#[test]
fn only_the_answer_to_the_last_question_is_awaited() {
    let fetched: LoadEvent<&str> = LoadEvent::Fetched(Ok(1));
    assert!(Loader::Fetching.awaits(&fetched));
    assert!(!Loader::LoadingFiles.awaits(&fetched));
    assert!(!Loader::Converting { engine: false }.awaits(&fetched));
}
