use dirsync::folder::{Folder, FolderType};
use dirsync::ssh::SshServer;
use dirsync::sync::{plan_sync, SyncError, SyncPhase, SyncRun};

fn local(name: &str, path: &str) -> Folder {
    Folder {
        name: name.to_string(),
        path: path.to_string(),
        target: FolderType::Local,
        ssh_key: None,
    }
}

fn remote(name: &str, path: &str, key: &str) -> Folder {
    Folder {
        name: name.to_string(),
        path: path.to_string(),
        target: FolderType::Ssh,
        ssh_key: Some(key.to_string()),
    }
}

fn server(key: &str, host: &str, user: &str, port: u32, work_path: &str) -> SshServer {
    SshServer {
        key: key.to_string(),
        host: host.to_string(),
        username: user.to_string(),
        port,
        work_folder: local(key, work_path),
    }
}

#[test]
fn dual_remote_is_rejected_before_any_step() {
    let servers = vec![server("box", "example.net", "alice", 22, "/stage")];
    let a = remote("a", "/a", "box");
    let b = remote("b", "/b", "box");
    let w = local("w", "/w");
    let r = plan_sync(&a, &b, &w, &servers, &None);
    assert!(matches!(r, Err(SyncError::BothRemote)));
}

#[test]
fn remote_side_without_key_is_rejected() {
    let servers = Vec::new();
    let mut a = remote("a", "/a", "box");
    a.ssh_key = None;
    let b = local("b", "/b");
    let w = local("w", "/w");
    let r = plan_sync(&a, &b, &w, &servers, &None);
    assert!(matches!(r, Err(SyncError::NoSshKey)));
}

#[test]
fn unresolvable_host_reference_is_rejected() {
    let servers = Vec::new();
    let a = remote("a", "/a", "missing");
    let b = local("b", "/b");
    let w = local("w", "/w");
    let r = plan_sync(&a, &b, &w, &servers, &None);
    assert!(matches!(r, Err(SyncError::HostNotFound)));
}

#[test]
fn local_plan_copies_source_directly_and_orders_steps() {
    let servers = Vec::new();
    let from = local("src", "/src");
    let to = local("dst", "/dst");
    let w = local("w", "/stage");
    let plan = plan_sync(&from, &to, &w, &servers, &None).expect("local pair must plan");
    let name = plan.tar_name.clone();
    let tar_path = format!("/stage/{}", name);

    assert_eq!(plan.check_source, vec!["ls", "/src"]);
    let steps = plan.steps();
    assert_eq!(steps.len(), 8);
    assert_eq!(steps[0], vec!["tar", "-cf", &tar_path, "-C", "", "src"]);
    assert_eq!(steps[1], vec!["cp", "-R", "/src", "/dst"]);
    assert_eq!(steps[2], vec!["mkdir", "-p", "/dst"]);
    assert_eq!(steps[3], vec!["ls", &tar_path]);
    assert_eq!(steps[4], vec!["rm", "-rf", "/dst"]);
    assert_eq!(steps[5], vec!["tar", "-xf", &tar_path, "-C", ""]);
    assert_eq!(steps[6], vec!["rm", &tar_path]);
    assert_eq!(steps[7], vec!["rm", &tar_path]);
}

#[test]
fn remote_destination_plan_wraps_and_transfers_by_remote_copy() {
    let servers = vec![server("box", "example.net", "alice", 2222, "/rstage")];
    let from = local("src", "/src");
    let to = remote("dst", "/dst", "box");
    let w = local("w", "/stage");
    let plan = plan_sync(&from, &to, &w, &servers, &Some("sub".to_string())).expect(
        "single remote side must plan",
    );
    let name = plan.tar_name.clone();
    assert_eq!(plan.check_source, vec!["ls", "/src/sub"]);
    let steps = plan.steps();
    assert_eq!(
        steps[0],
        vec![
            "tar".to_string(),
            "-cf".to_string(),
            format!("/stage/{}", name),
            "-C".to_string(),
            "/src".to_string(),
            "sub".to_string(),
        ]
    );
    assert_eq!(
        steps[1],
        vec![
            "scp".to_string(),
            "-P".to_string(),
            "2222".to_string(),
            "-r".to_string(),
            format!("/stage/{}", name),
            format!("alice@example.net:/rstage/{}", name),
        ]
    );
    assert_eq!(
        steps[2],
        vec!["ssh", "-p", "2222", "alice@example.net", "mkdir", "-p", "/dst/sub"]
    );
    assert_eq!(
        steps[4],
        vec!["ssh", "-p", "2222", "alice@example.net", "rm", "-rf", "/dst/sub"]
    );
}

#[test]
fn missing_source_aborts_after_the_existence_check() {
    let servers = Vec::new();
    let from = local("src", "/src");
    let to = local("dst", "/dst");
    let w = local("w", "/stage");
    let plan = plan_sync(&from, &to, &w, &servers, &None).unwrap();
    let mut run = SyncRun::start(plan, true);
    assert!(matches!(run.phase, SyncPhase::Verifying));
    run.observe_check_output("ls: cannot access '/src': No such file or directory\n");
    assert!(matches!(run.phase, SyncPhase::Aborted));
    assert!(run.next_command().is_none());
}

#[test]
fn declining_confirmation_skips_every_mutating_step() {
    let servers = Vec::new();
    let from = local("src", "/src");
    let to = local("dst", "/dst");
    let w = local("w", "/stage");
    let plan = plan_sync(&from, &to, &w, &servers, &None).unwrap();
    let mut run = SyncRun::start(plan, false);
    run.observe_check_output("a.txt\n");
    assert!(matches!(run.phase, SyncPhase::AwaitingConfirmation));
    run.observe_confirmation("n\n");
    assert!(matches!(run.phase, SyncPhase::Skipped));
    assert!(run.next_command().is_none());
}

#[test]
fn empty_confirmation_also_skips() {
    let servers = Vec::new();
    let from = local("src", "/src");
    let to = local("dst", "/dst");
    let w = local("w", "/stage");
    let plan = plan_sync(&from, &to, &w, &servers, &None).unwrap();
    let mut run = SyncRun::start(plan, false);
    run.observe_check_output("a.txt\n");
    run.observe_confirmation("");
    assert!(matches!(run.phase, SyncPhase::Skipped));
    assert!(run.next_command().is_none());
}

#[test]
fn confirming_proceeds_to_execution() {
    let servers = Vec::new();
    let from = local("src", "/src");
    let to = local("dst", "/dst");
    let w = local("w", "/stage");
    let plan = plan_sync(&from, &to, &w, &servers, &None).unwrap();
    let mut run = SyncRun::start(plan, false);
    run.observe_check_output("a.txt\n");
    run.observe_confirmation(" y\n");
    assert!(matches!(run.phase, SyncPhase::Executing));
    assert!(run.next_command().is_some());
}

#[test]
fn forced_run_issues_all_steps_in_order_then_is_done() {
    let servers = Vec::new();
    let from = local("src", "/src");
    let to = local("dst", "/dst");
    let w = local("w", "/stage");
    let plan = plan_sync(&from, &to, &w, &servers, &None).unwrap();
    let expected = plan.steps();
    let mut run = SyncRun::start(plan, true);
    run.observe_check_output("a.txt\n");
    assert!(matches!(run.phase, SyncPhase::Executing));
    let mut issued: Vec<Vec<String>> = Vec::new();
    while let Some(cmd) = run.next_command() {
        issued.push(cmd);
        run.step_done();
    }
    assert!(matches!(run.phase, SyncPhase::Done));
    assert_eq!(issued, expected);
    assert_eq!(issued.len(), 8);
}
