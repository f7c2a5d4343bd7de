use navigator_sandbox::error::SandboxError;
use navigator_sandbox::filesystem::{FsAction, FsEvent};
use navigator_sandbox::load::{LoadAction, LoadEvent, PolicySources};
use navigator_sandbox::network::{BindAddr, Netns, Platform};
use navigator_sandbox::policy::{
    FilesystemPolicy, HttpAddr, LandlockCompatibility, NetworkMode, NetworkPolicy, ProcessPolicy,
    ProxyPolicy, SandboxConfig, SandboxPolicy,
};
use navigator_sandbox::supervisor::{
    run_sandbox, Action, ChildLaunch, Event, ProxyLaunch, RunRequest, SshLaunch, Supervisor,
};

type Failure = &'static str;

fn text(s: &str) -> Option<String> {
    Some(s.to_string())
}

fn no_sources() -> PolicySources {
    PolicySources {
        sandbox_id: None,
        navigator_endpoint: None,
        policy_rules: None,
        policy_data: None,
    }
}

fn file_sources() -> PolicySources {
    PolicySources {
        policy_rules: text("rules.rego"),
        policy_data: text("data.yaml"),
        ..no_sources()
    }
}

fn server_sources() -> PolicySources {
    PolicySources {
        sandbox_id: text("sb-1"),
        navigator_endpoint: text("http://navigator:8080"),
        ..no_sources()
    }
}

fn request(sources: PolicySources, platform: Platform) -> RunRequest {
    RunRequest {
        command: vec!["sh".to_string(), "-c".to_string(), "true".to_string()],
        workdir: text("/work"),
        timeout_secs: 0,
        interactive: true,
        sources,
        ssh_listen_addr: None,
        ssh_handshake_secret: None,
        ssh_handshake_skew_secs: 300,
        platform,
    }
}

fn filesystem() -> FilesystemPolicy {
    FilesystemPolicy {
        read_only: vec!["/usr".to_string()],
        read_write: Vec::new(),
        with_workdir: true,
    }
}

fn process() -> ProcessPolicy {
    ProcessPolicy { run_as_user: None, run_as_group: None }
}

fn config() -> SandboxConfig {
    SandboxConfig {
        filesystem: filesystem(),
        landlock: LandlockCompatibility::BestEffort,
        process: process(),
    }
}

fn policy(mode: NetworkMode, proxy: Option<ProxyPolicy>) -> SandboxPolicy {
    SandboxPolicy {
        version: 1,
        filesystem: filesystem(),
        network: NetworkPolicy { mode, proxy },
        landlock: LandlockCompatibility::BestEffort,
        process: process(),
    }
}

fn with_tls_dir(mut policy: SandboxPolicy) -> SandboxPolicy {
    policy.filesystem.read_only.push("/etc/navigator-tls".to_string());
    policy
}

fn file_policy() -> SandboxPolicy {
    policy(NetworkMode::Proxy, Some(ProxyPolicy { http_addr: None }))
}

/// A run and what it asked for last.
struct Run {
    supervisor: Supervisor,
    action: Action<Failure>,
}

impl Run {
    fn start(request: RunRequest) -> Run {
        let (supervisor, action) = run_sandbox(request);
        Run { supervisor, action }
    }

    fn answer(self, event: Event<Failure>) -> Run {
        assert!(self.supervisor.awaits(&event), "{:?} does not answer {:?}", event, self.action);
        let (supervisor, action) = self.supervisor.step(event);
        Run { supervisor, action }
    }

    fn load_files(self) -> Run {
        assert_eq!(
            self.action,
            Action::Load(LoadAction::LoadFiles {
                rules: "rules.rego".to_string(),
                data: "data.yaml".to_string()
            })
        );
        self.answer(Event::Load(LoadEvent::FilesLoaded(Ok(()))))
            .answer(Event::Load(LoadEvent::ConfigRead(Ok(config()))))
    }

    fn fetch(self, network_policies: usize, policy: SandboxPolicy) -> Run {
        let mut run = self.answer(Event::Load(LoadEvent::Fetched(Ok(network_policies))));
        if network_policies > 0 {
            run = run.answer(Event::Load(LoadEvent::EngineBuilt(Ok(()))));
        }
        run.answer(Event::Load(LoadEvent::Converted(Ok(policy))))
    }

    fn finish(self, result: Result<i32, SandboxError<Failure>>) {
        assert_eq!(self.action, Action::Finish(result));
    }
}

#[test]
fn without_a_command_nothing_is_done() {
    let mut request = request(file_sources(), Platform::Linux);
    request.command = Vec::new();
    Run::start(request).finish(Err(SandboxError::NoCommand));
}

#[test]
fn without_a_policy_nothing_is_run() {
    Run::start(request(no_sources(), Platform::Linux)).finish(Err(SandboxError::PolicyRequired));
}

#[test]
fn full_run_on_linux() {
    let mut request = request(file_sources(), Platform::Linux);
    request.sources.sandbox_id = text("sb-1");
    request.sources.navigator_endpoint = text("http://navigator:8080");
    request.ssh_listen_addr = text("0.0.0.0:2222");
    request.ssh_handshake_secret = text("s3cret");
    let env = vec![("KEY".to_string(), "value".to_string())];

    let run = Run::start(request).load_files();
    assert_eq!(
        run.action,
        Action::FetchProviderEnv {
            endpoint: "http://navigator:8080".to_string(),
            sandbox_id: "sb-1".to_string()
        }
    );
    let run = run.answer(Event::EnvFetched(Some(env.clone())));
    assert_eq!(run.action, Action::GenerateCa);
    let run = run.answer(Event::CaGenerated(true));
    assert_eq!(run.action, Action::WriteCaFiles { dir: "/etc/navigator-tls".to_string() });
    let run = run.answer(Event::CaWritten(true));
    assert_eq!(run.action, Action::CreateNetns);
    let run = run.answer(Event::NetnsCreated(Some(Netns {
        host_ip: "10.200.0.1".to_string(),
        ns_fd: Some(9),
    })));
    assert_eq!(
        run.action,
        Action::StartProxy(ProxyLaunch {
            config: ProxyPolicy { http_addr: None },
            bind: Some(BindAddr { host: "10.200.0.1".to_string(), port: 3128 }),
            control_plane: text("http://navigator:8080"),
            tls: true,
        })
    );
    let run = run.answer(Event::ProxyStarted(Ok(())));
    assert_eq!(run.action, Action::StartReaper);
    let run = run.answer(Event::ReaperStarted);
    assert_eq!(
        run.action,
        Action::StartSsh(SshLaunch {
            listen_addr: "0.0.0.0:2222".to_string(),
            policy: with_tls_dir(file_policy()),
            workdir: text("/work"),
            secret: "s3cret".to_string(),
            skew_secs: 300,
            netns_fd: Some(9),
            proxy_url: text("http://10.200.0.1:3128"),
            ca_files: true,
            env: env.clone(),
        })
    );
    let run = run.answer(Event::SshStarted(Ok(())));
    assert_eq!(
        run.action,
        Action::SpawnChild(ChildLaunch {
            program: "sh".to_string(),
            args: vec!["-c".to_string(), "true".to_string()],
            workdir: text("/work"),
            interactive: true,
            policy: with_tls_dir(file_policy()),
            netns: true,
            ca_files: true,
            env,
        })
    );
    let run = run.answer(Event::ChildSpawned(Ok(4711)));
    assert_eq!(run.action, Action::Wait { entrypoint_pid: 4711, timeout_secs: None });
    run.answer(Event::ChildExited(Ok(3))).finish(Ok(3));
}

#[test]
fn run_goes_on_without_environment_ca_and_namespace() {
    let mut request = request(server_sources(), Platform::Linux);
    request.ssh_listen_addr = text("0.0.0.0:2222");
    let run = Run::start(request)
        .fetch(1, file_policy())
        .answer(Event::EnvFetched(None))
        .answer(Event::CaGenerated(false))
        .answer(Event::NetnsCreated(None));
    assert_eq!(
        run.action,
        Action::StartProxy(ProxyLaunch {
            config: ProxyPolicy { http_addr: None },
            bind: None,
            control_plane: text("http://navigator:8080"),
            tls: false,
        })
    );
    let run = run.answer(Event::ProxyStarted(Ok(()))).answer(Event::ReaperStarted);
    assert_eq!(
        run.action,
        Action::StartSsh(SshLaunch {
            listen_addr: "0.0.0.0:2222".to_string(),
            policy: file_policy(),
            workdir: text("/work"),
            secret: String::new(),
            skew_secs: 300,
            netns_fd: None,
            proxy_url: None,
            ca_files: false,
            env: Vec::new(),
        })
    );
    let run = run.answer(Event::SshStarted(Ok(())));
    assert_eq!(
        run.action,
        Action::SpawnChild(ChildLaunch {
            program: "sh".to_string(),
            args: vec!["-c".to_string(), "true".to_string()],
            workdir: text("/work"),
            interactive: true,
            policy: file_policy(),
            netns: false,
            ca_files: false,
            env: Vec::new(),
        })
    );
}

#[test]
fn unwritten_certificates_leave_the_policy_alone() {
    let run = Run::start(request(file_sources(), Platform::OtherUnix))
        .load_files()
        .answer(Event::CaGenerated(true))
        .answer(Event::CaWritten(false))
        .answer(Event::ProxyStarted(Ok(())));
    match run.action {
        Action::SpawnChild(launch) => {
            assert_eq!(launch.policy, file_policy());
            assert!(!launch.ca_files);
        }
        other => panic!("not the child: {:?}", other),
    }
}

#[test]
fn unproxied_run_sets_up_no_network() {
    let run = Run::start(request(server_sources(), Platform::Linux))
        .fetch(0, policy(NetworkMode::Unproxied("block".to_string()), None))
        .answer(Event::EnvFetched(None));
    assert_eq!(run.action, Action::StartReaper);
    let run = run.answer(Event::ReaperStarted);
    match run.action {
        Action::SpawnChild(launch) => assert_eq!(
            launch.policy,
            policy(NetworkMode::Unproxied("block".to_string()), None)
        ),
        other => panic!("not the child: {:?}", other),
    }
}

#[test]
fn every_unproxied_mode_is_handed_on_as_loaded() {
    for name in ["block", "allow"] {
        let mut request = request(server_sources(), Platform::OtherUnix);
        request.ssh_listen_addr = text("0.0.0.0:2222");
        let loaded = || policy(NetworkMode::Unproxied(name.to_string()), None);
        let run = Run::start(request).fetch(0, loaded()).answer(Event::EnvFetched(None));
        match &run.action {
            Action::StartSsh(launch) => assert_eq!(launch.policy, loaded()),
            other => panic!("not the SSH server: {:?}", other),
        }
        match run.answer(Event::SshStarted(Ok(()))).action {
            Action::SpawnChild(launch) => assert_eq!(launch.policy, loaded()),
            other => panic!("not the child: {:?}", other),
        }
    }
}

#[test]
fn fetched_environment_is_handed_on_name_by_name() {
    let env = vec![
        ("A".to_string(), "1".to_string()),
        ("B".to_string(), "1".to_string()),
    ];
    let run = Run::start(request(server_sources(), Platform::OtherUnix))
        .fetch(0, policy(NetworkMode::Unproxied("allow".to_string()), None))
        .answer(Event::EnvFetched(Some(env.clone())));
    match run.action {
        Action::SpawnChild(launch) => assert_eq!(launch.env, env),
        other => panic!("not the child: {:?}", other),
    }
}

#[test]
fn elsewhere_there_is_neither_namespace_nor_reaper() {
    let addr = HttpAddr { host: "127.0.0.1".to_string(), port: 8888 };
    let mut request = request(server_sources(), Platform::NonUnix);
    request.ssh_listen_addr = text("0.0.0.0:2222");
    let run = Run::start(request)
        .fetch(1, policy(NetworkMode::Proxy, Some(ProxyPolicy { http_addr: Some(addr) })))
        .answer(Event::EnvFetched(None))
        .answer(Event::CaGenerated(false));
    match &run.action {
        Action::StartProxy(launch) => assert_eq!(launch.bind, None),
        other => panic!("not the proxy: {:?}", other),
    }
    let run = run.answer(Event::ProxyStarted(Ok(())));
    match run.action {
        Action::StartSsh(launch) => {
            assert_eq!(launch.proxy_url, text("http://127.0.0.1:8888"));
            assert_eq!(launch.netns_fd, None);
        }
        other => panic!("not the SSH server: {:?}", other),
    }
}

#[test]
fn proxy_needs_a_configuration() {
    Run::start(request(server_sources(), Platform::Linux))
        .fetch(1, policy(NetworkMode::Proxy, None))
        .answer(Event::EnvFetched(None))
        .answer(Event::CaGenerated(false))
        .answer(Event::NetnsCreated(None))
        .finish(Err(SandboxError::ProxyConfigMissing));
}

#[test]
fn proxy_needs_an_engine() {
    Run::start(request(server_sources(), Platform::Linux))
        .fetch(0, file_policy())
        .answer(Event::EnvFetched(None))
        .answer(Event::CaGenerated(false))
        .answer(Event::NetnsCreated(None))
        .finish(Err(SandboxError::EngineMissing));
}

#[test]
fn proxy_needs_both_without_a_namespace_too() {
    Run::start(request(server_sources(), Platform::OtherUnix))
        .fetch(1, policy(NetworkMode::Proxy, None))
        .answer(Event::EnvFetched(None))
        .answer(Event::CaGenerated(true))
        .answer(Event::CaWritten(false))
        .finish(Err(SandboxError::ProxyConfigMissing));
    Run::start(request(server_sources(), Platform::OtherUnix))
        .fetch(0, file_policy())
        .answer(Event::EnvFetched(None))
        .answer(Event::CaGenerated(false))
        .finish(Err(SandboxError::EngineMissing));
}

#[test]
fn filesystem_is_prepared_before_the_network() {
    let mut proxied = file_policy();
    proxied.filesystem.read_write.push("/sandbox".to_string());
    proxied.process.run_as_user = text("sandbox");
    let run = Run::start(request(server_sources(), Platform::Linux))
        .fetch(1, proxied)
        .answer(Event::EnvFetched(None));
    assert_eq!(run.action, Action::Prepare(FsAction::LookupUser("sandbox".to_string())));
    let run = run.answer(Event::Prepare(FsEvent::User(Ok(Some(1000)))));
    assert_eq!(run.action, Action::Prepare(FsAction::Probe("/sandbox".to_string())));
    let run = run.answer(Event::Prepare(FsEvent::Exists(false)));
    assert_eq!(run.action, Action::Prepare(FsAction::CreateDir("/sandbox".to_string())));
    let run = run.answer(Event::Prepare(FsEvent::Created(Ok(()))));
    assert_eq!(
        run.action,
        Action::Prepare(FsAction::SetOwner {
            path: "/sandbox".to_string(),
            uid: Some(1000),
            gid: None
        })
    );
    let run = run.answer(Event::Prepare(FsEvent::Owned(Ok(()))));
    assert_eq!(run.action, Action::GenerateCa);
}

#[test]
fn unknown_user_ends_the_run() {
    let mut proxied = file_policy();
    proxied.process.run_as_user = text("ghost");
    Run::start(request(server_sources(), Platform::Linux))
        .fetch(1, proxied)
        .answer(Event::EnvFetched(None))
        .answer(Event::Prepare(FsEvent::User(Ok(None))))
        .finish(Err(SandboxError::UserNotFound("ghost".to_string())));
}

fn at_the_child(timeout_secs: u64) -> Run {
    let mut request = request(file_sources(), Platform::OtherUnix);
    request.timeout_secs = timeout_secs;
    Run::start(request)
        .load_files()
        .answer(Event::CaGenerated(false))
        .answer(Event::ProxyStarted(Ok(())))
}

#[test]
fn timeout_kills_the_child() {
    let run = at_the_child(30).answer(Event::ChildSpawned(Ok(7)));
    assert_eq!(run.action, Action::Wait { entrypoint_pid: 7, timeout_secs: Some(30) });
    let run = run.answer(Event::TimedOut);
    assert_eq!(run.action, Action::Kill);
    run.answer(Event::Killed(Ok(()))).finish(Ok(124));
}

#[test]
fn child_that_exits_in_time_keeps_its_code() {
    at_the_child(30)
        .answer(Event::ChildSpawned(Ok(7)))
        .answer(Event::ChildExited(Ok(0)))
        .finish(Ok(0));
}

#[test]
fn unlimited_wait_does_not_time_out() {
    let run = at_the_child(0).answer(Event::ChildSpawned(Ok(7)));
    assert_eq!(run.action, Action::Wait { entrypoint_pid: 7, timeout_secs: None });
    assert!(!run.supervisor.awaits::<Failure>(&Event::TimedOut));
}

#[test]
fn outside_failures_end_the_run() {
    let broken = || Err(SandboxError::Outside("broken"));
    Run::start(request(file_sources(), Platform::Linux))
        .answer(Event::Load(LoadEvent::FilesLoaded(Err("broken"))))
        .finish(broken());
    Run::start(request(file_sources(), Platform::OtherUnix))
        .load_files()
        .answer(Event::CaGenerated(false))
        .answer(Event::ProxyStarted(Err("broken")))
        .finish(broken());
    at_the_child(0).answer(Event::ChildSpawned(Err("broken"))).finish(broken());
    at_the_child(0)
        .answer(Event::ChildSpawned(Ok(7)))
        .answer(Event::ChildExited(Err("broken")))
        .finish(broken());
    at_the_child(1)
        .answer(Event::ChildSpawned(Ok(7)))
        .answer(Event::TimedOut)
        .answer(Event::Killed(Err("broken")))
        .finish(broken());
}

#[test]
fn unreadable_listen_address_ends_the_run() {
    let mut request = request(file_sources(), Platform::OtherUnix);
    request.ssh_listen_addr = text("nonsense");
    Run::start(request)
        .load_files()
        .answer(Event::CaGenerated(false))
        .answer(Event::ProxyStarted(Ok(())))
        .answer(Event::SshStarted(Err("invalid socket address")))
        .finish(Err(SandboxError::Outside("invalid socket address")));
}

#[test]
fn finished_run_awaits_nothing() {
    let run = Run::start(request(no_sources(), Platform::Linux));
    assert!(!run.supervisor.awaits::<Failure>(&Event::ReaperStarted));
    assert!(!run.supervisor.awaits::<Failure>(&Event::ChildExited(Ok(0))));
}

#[test]
fn longest_run_takes_fifteen_operations_and_three_for_each_directory() {
    let mut proxied = file_policy();
    proxied.filesystem.read_write.push("/a".to_string());
    proxied.filesystem.read_write.push("/b".to_string());
    proxied.process.run_as_user = text("sandbox");
    proxied.process.run_as_group = text("staff");
    let mut request = request(server_sources(), Platform::Linux);
    request.ssh_listen_addr = text("0.0.0.0:2222");
    request.timeout_secs = 1;
    let namespace = Netns { host_ip: "10.200.0.1".to_string(), ns_fd: None };
    let events: Vec<Event<Failure>> = vec![
        Event::Load(LoadEvent::Fetched(Ok(1))),
        Event::Load(LoadEvent::EngineBuilt(Ok(()))),
        Event::Load(LoadEvent::Converted(Ok(proxied))),
        Event::EnvFetched(Some(Vec::new())),
        Event::Prepare(FsEvent::User(Ok(Some(1)))),
        Event::Prepare(FsEvent::Group(Ok(Some(2)))),
        Event::Prepare(FsEvent::Exists(false)),
        Event::Prepare(FsEvent::Created(Ok(()))),
        Event::Prepare(FsEvent::Owned(Ok(()))),
        Event::Prepare(FsEvent::Exists(false)),
        Event::Prepare(FsEvent::Created(Ok(()))),
        Event::Prepare(FsEvent::Owned(Ok(()))),
        Event::CaGenerated(true),
        Event::CaWritten(true),
        Event::NetnsCreated(Some(namespace)),
        Event::ProxyStarted(Ok(())),
        Event::ReaperStarted,
        Event::SshStarted(Ok(())),
        Event::ChildSpawned(Ok(7)),
        Event::TimedOut,
        Event::Killed(Ok(())),
    ];
    assert_eq!(events.len(), 15 + 3 * 2);
    let mut run = Run::start(request);
    for event in events {
        run = run.answer(event);
    }
    run.finish(Ok(124));
}
