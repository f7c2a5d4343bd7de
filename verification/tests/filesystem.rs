use navigator_sandbox::error::SandboxError;
use navigator_sandbox::filesystem::{
    prepare_filesystem, FsAction, FsEvent, FsProgress, FsStage, Preparer,
};
use navigator_sandbox::network::Platform;
use navigator_sandbox::policy::{
    FilesystemPolicy, LandlockCompatibility, NetworkMode, NetworkPolicy, ProcessPolicy,
    SandboxPolicy,
};

fn policy(user: Option<&str>, group: Option<&str>, paths: &[&str]) -> SandboxPolicy {
    SandboxPolicy {
        version: 1,
        filesystem: FilesystemPolicy {
            read_only: Vec::new(),
            read_write: paths.iter().map(|p| p.to_string()).collect(),
            with_workdir: false,
        },
        network: NetworkPolicy { mode: NetworkMode::Unproxied("block".to_string()), proxy: None },
        landlock: LandlockCompatibility::BestEffort,
        process: ProcessPolicy {
            run_as_user: user.map(|u| u.to_string()),
            run_as_group: group.map(|g| g.to_string()),
        },
    }
}

/// Answers every operation and lists them all.
fn drive(
    policy: &SandboxPolicy,
    uid: Option<u32>,
    gid: Option<u32>,
    exists: bool,
) -> (Vec<FsAction>, FsProgress<&'static str>) {
    let mut log: Vec<FsAction> = Vec::new();
    let mut progress: FsProgress<&'static str> = prepare_filesystem(policy, Platform::Linux);
    loop {
        match progress {
            FsProgress::Perform(preparer, action) => {
                let event = match &action {
                    FsAction::LookupUser(_) => FsEvent::User(Ok(uid)),
                    FsAction::LookupGroup(_) => FsEvent::Group(Ok(gid)),
                    FsAction::Probe(_) => FsEvent::Exists(exists),
                    FsAction::CreateDir(_) => FsEvent::Created(Ok(())),
                    FsAction::SetOwner { .. } => FsEvent::Owned(Ok(())),
                };
                log.push(action);
                assert!(preparer.awaits(&event));
                progress = preparer.step(policy, event);
            }
            ended => return (log, ended),
        }
    }
}

fn set_owner(path: &str, uid: Option<u32>, gid: Option<u32>) -> FsAction {
    FsAction::SetOwner { path: path.to_string(), uid, gid }
}

#[test]
fn missing_directories_are_created_and_handed_over() {
    let policy = policy(Some("sandbox"), Some("staff"), &["/a", "/b"]);
    let (log, end) = drive(&policy, Some(1000), Some(50), false);
    assert_eq!(
        log,
        vec![
            FsAction::LookupUser("sandbox".to_string()),
            FsAction::LookupGroup("staff".to_string()),
            FsAction::Probe("/a".to_string()),
            FsAction::CreateDir("/a".to_string()),
            set_owner("/a", Some(1000), Some(50)),
            FsAction::Probe("/b".to_string()),
            FsAction::CreateDir("/b".to_string()),
            set_owner("/b", Some(1000), Some(50)),
        ]
    );
    assert_eq!(end, FsProgress::Ready);
}

#[test]
fn existing_directories_are_only_handed_over() {
    let policy = policy(None, Some("staff"), &["/a"]);
    let (log, end) = drive(&policy, None, Some(50), true);
    assert_eq!(
        log,
        vec![
            FsAction::LookupGroup("staff".to_string()),
            FsAction::Probe("/a".to_string()),
            set_owner("/a", None, Some(50)),
        ]
    );
    assert_eq!(end, FsProgress::Ready);
}

#[test]
fn without_account_missing_directories_are_created_and_not_handed_over() {
    let policy = policy(None, None, &["/a", "/b"]);
    let (log, end) = drive(&policy, None, None, false);
    assert_eq!(
        log,
        vec![
            FsAction::Probe("/a".to_string()),
            FsAction::CreateDir("/a".to_string()),
            FsAction::Probe("/b".to_string()),
            FsAction::CreateDir("/b".to_string()),
        ]
    );
    assert_eq!(end, FsProgress::Ready);
}

#[test]
fn empty_names_count_as_none() {
    let policy = policy(Some(""), Some(""), &["/a"]);
    let (log, end) = drive(&policy, Some(1), Some(1), true);
    assert_eq!(log, vec![FsAction::Probe("/a".to_string())]);
    assert_eq!(end, FsProgress::Ready);
}

#[test]
fn unknown_user_is_an_error() {
    let policy = policy(Some("ghost"), Some("staff"), &["/a"]);
    let (log, end) = drive(&policy, None, Some(50), true);
    assert_eq!(log.len(), 1);
    assert_eq!(end, FsProgress::Failed(SandboxError::UserNotFound("ghost".to_string())));
}

#[test]
fn unknown_group_is_an_error() {
    let policy = policy(Some("sandbox"), Some("ghosts"), &["/a"]);
    let (log, end) = drive(&policy, Some(1000), None, true);
    assert_eq!(log.len(), 2);
    assert_eq!(end, FsProgress::Failed(SandboxError::GroupNotFound("ghosts".to_string())));
}

#[test]
fn outside_unix_there_is_nothing_to_prepare() {
    let policy = policy(Some("sandbox"), None, &["/a"]);
    let progress: FsProgress<&str> = prepare_filesystem(&policy, Platform::NonUnix);
    assert_eq!(progress, FsProgress::Ready);
}

#[test]
fn failing_operation_ends_the_preparation() {
    let policy = policy(Some("sandbox"), None, &["/a"]);
    let at = |uid, stage| Preparer { uid, gid: None, stage };
    let failed = FsProgress::Failed(SandboxError::Outside("denied"));
    assert_eq!(at(None, FsStage::User).step(&policy, FsEvent::User(Err("denied"))), failed);
    assert_eq!(
        at(Some(1), FsStage::Creating(0)).step(&policy, FsEvent::Created(Err("denied"))),
        failed
    );
    assert_eq!(
        at(Some(1), FsStage::Owning(0)).step(&policy, FsEvent::Owned(Err("denied"))),
        failed
    );
}

#[test]
fn group_lookup_failure_ends_the_preparation() {
    let policy = policy(None, Some("staff"), &["/a"]);
    let preparer = Preparer { uid: None, gid: None, stage: FsStage::Group };
    assert_eq!(
        preparer.step(&policy, FsEvent::Group(Err("denied"))),
        FsProgress::Failed(SandboxError::Outside("denied"))
    );
}

#[test]
fn parents_of_a_created_directory_are_found_to_exist() {
    let policy = policy(None, None, &["/a/b", "/a"]);
    let mut world: Vec<String> = Vec::new();
    let mut created: Vec<String> = Vec::new();
    let mut progress: FsProgress<&'static str> = prepare_filesystem(&policy, Platform::Linux);
    loop {
        match progress {
            FsProgress::Perform(preparer, action) => {
                let event = match action {
                    FsAction::Probe(path) => FsEvent::Exists(world.contains(&path)),
                    FsAction::CreateDir(path) => {
                        world.push("/a".to_string());
                        world.push(path.clone());
                        created.push(path);
                        FsEvent::Created(Ok(()))
                    }
                    other => panic!("not expected: {:?}", other),
                };
                progress = preparer.step(&policy, event);
            }
            ended => {
                assert_eq!(ended, FsProgress::Ready);
                break;
            }
        }
    }
    assert_eq!(created, vec!["/a/b".to_string()]);
    for path in &policy.filesystem.read_write {
        assert!(world.contains(path));
    }
}
