use dirsync::folder::{current_dir_folder, Folder, FolderType};
use dirsync::ssh::{add_ssh_cmd, get, scp_cmd, ssh_cmd, SshServer};
use dirsync::sync::{build_path, ls_command};
use dirsync::tar::{split_path, tar_directory, untar_directory};

fn local(name: &str, path: &str) -> Folder {
    Folder {
        name: name.to_string(),
        path: path.to_string(),
        target: FolderType::Local,
        ssh_key: None,
    }
}

fn remote(name: &str, path: &str, key: &str) -> Folder {
    Folder {
        name: name.to_string(),
        path: path.to_string(),
        target: FolderType::Ssh,
        ssh_key: Some(key.to_string()),
    }
}

fn server(key: &str, host: &str, user: &str, port: u32, work_path: &str) -> SshServer {
    SshServer {
        key: key.to_string(),
        host: host.to_string(),
        username: user.to_string(),
        port,
        work_folder: local(key, work_path),
    }
}

#[test]
fn build_path_without_relative_is_base_path() {
    let f = local("src", "/data/src");
    assert_eq!(build_path(&f, &None), "/data/src");
}

#[test]
fn build_path_joins_relative_with_separator() {
    let f = local("src", "/data/src");
    assert_eq!(build_path(&f, &Some("sub/dir".to_string())), "/data/src/sub/dir");
}

#[test]
fn split_path_separates_parent_and_leaf() {
    let (parent, leaf) = split_path("/a/b/c".to_string());
    assert_eq!(parent, "/a/b");
    assert_eq!(leaf, "c");
}

#[test]
fn split_path_without_separator_has_empty_parent() {
    let (parent, leaf) = split_path("name".to_string());
    assert_eq!(parent, "");
    assert_eq!(leaf, "name");
}

#[test]
fn split_path_drops_whitespace_segments_from_parent() {
    let (parent, leaf) = split_path("/a/ /b/c".to_string());
    assert_eq!(parent, "/a/b");
    assert_eq!(leaf, "c");
}

#[test]
fn split_path_with_trailing_separator_has_empty_leaf() {
    let (parent, leaf) = split_path("/a/b/".to_string());
    assert_eq!(parent, "/a/b");
    assert_eq!(leaf, "");
}

#[test]
fn current_dir_folder_is_local_at_given_path() {
    let f = current_dir_folder("/somewhere".to_string());
    assert_eq!(f.name, "current_working_directory");
    assert_eq!(f.path, "/somewhere");
    assert!(matches!(f.target, FolderType::Local));
    assert!(f.ssh_key.is_none());
}

#[test]
fn server_lookup_finds_by_key() {
    let servers = vec![server("a", "a.example", "u", 22, "/w"), server("b", "b.example", "v", 2222, "/w2")];
    let found = get("b".to_string(), &servers).expect("server b should resolve");
    assert_eq!(found.host, "b.example");
    assert_eq!(found.port, 2222);
    assert!(get("c".to_string(), &servers).is_none());
}

#[test]
fn ssh_cmd_builds_remote_shell_invocation() {
    let servers = vec![server("box", "example.net", "alice", 2222, "/stage")];
    let f = remote("r", "/srv/data", "box");
    let cmd = ssh_cmd(&f, &servers);
    assert_eq!(cmd, vec!["ssh", "-p", "2222", "alice@example.net"]);
}

#[test]
fn wrap_local_is_identity() {
    let servers = vec![server("box", "example.net", "alice", 22, "/stage")];
    let f = local("l", "/srv/data");
    let mut base = vec!["ls".to_string(), "-l".to_string(), "/srv/data".to_string()];
    let wrapped = add_ssh_cmd(&f, &servers, &mut base);
    assert_eq!(wrapped, vec!["ls", "-l", "/srv/data"]);
    assert_eq!(base, vec!["ls", "-l", "/srv/data"]);
}

#[test]
fn wrap_remote_prefixes_and_keeps_base_in_order() {
    let servers = vec![server("box", "example.net", "alice", 2200, "/stage")];
    let f = remote("r", "/srv/data", "box");
    let mut base = vec!["ls".to_string(), "-l".to_string(), "/srv/data".to_string()];
    let wrapped = add_ssh_cmd(&f, &servers, &mut base);
    assert_eq!(wrapped[0], "ssh");
    assert!(wrapped.contains(&"2200".to_string()));
    assert_eq!(wrapped, vec!["ssh", "-p", "2200", "alice@example.net", "ls", "-l", "/srv/data"]);
}

#[test]
fn ls_command_for_local_folder_is_plain_listing() {
    let servers = Vec::new();
    let f = local("l", "/srv/data");
    let cmd = ls_command(&f, &servers, &Some("sub".to_string()));
    assert_eq!(cmd, vec!["ls", "-l", "/srv/data/sub"]);
}

#[test]
fn ls_command_for_remote_folder_is_wrapped() {
    let servers = vec![server("box", "example.net", "alice", 22, "/stage")];
    let f = remote("r", "/srv/data", "box");
    let cmd = ls_command(&f, &servers, &None);
    assert_eq!(cmd, vec!["ssh", "-p", "22", "alice@example.net", "ls", "-l", "/srv/data"]);
}

#[test]
fn scp_cmd_from_local_to_remote_uses_remote_port_and_endpoints() {
    let servers = vec![server("box", "example.net", "alice", 2222, "/remote/stage")];
    let from = local("l", "/srv/data");
    let to = remote("r", "/dst/data", "box");
    let from_work = local("w", "/local/stage");
    let to_work = local("box", "/remote/stage");
    let cmd = scp_cmd(&from, &to, "abc.tar.gz".to_string(), &from_work, &to_work, &servers);
    assert_eq!(
        cmd,
        vec![
            "scp",
            "-P",
            "2222",
            "-r",
            "/local/stage/abc.tar.gz",
            "alice@example.net:/remote/stage/abc.tar.gz",
        ]
    );
}

#[test]
fn scp_cmd_between_locals_uses_default_port() {
    let servers = Vec::new();
    let from = local("a", "/a");
    let to = local("b", "/b");
    let w1 = local("w1", "/s1");
    let w2 = local("w2", "/s2");
    let cmd = scp_cmd(&from, &to, "x.tar.gz".to_string(), &w1, &w2, &servers);
    assert_eq!(cmd, vec!["scp", "-P", "22", "-r", "/s1/x.tar.gz", "/s2/x.tar.gz"]);
}

#[test]
fn tar_directory_names_a_fresh_archive() {
    let work = local("w", "/stage");
    let (name, _, _, _) = tar_directory("/data/src".to_string(), &work);
    assert_eq!(name.len(), 14);
    assert!(name.ends_with(".tar.gz"));
    assert!(name[..7].chars().all(|c| c.is_ascii_alphanumeric()));
}

#[test]
fn consecutive_archive_names_differ() {
    let work = local("w", "/stage");
    let (first, _, _, _) = tar_directory("/data/src".to_string(), &work);
    let (second, _, _, _) = tar_directory("/data/src".to_string(), &work);
    assert_ne!(first, second);
}

#[test]
fn tar_directory_plans_check_create_delete() {
    let work = local("w", "/stage");
    let (name, exists, create, delete) = tar_directory("/data/src".to_string(), &work);
    let tar_path = format!("/stage/{}", name);
    assert_eq!(exists, vec!["ls", "/data/src"]);
    assert_eq!(create, vec!["tar", "-cf", &tar_path, "-C", "/data", "src"]);
    assert_eq!(delete, vec!["rm", &tar_path]);
}

#[test]
fn untar_directory_plans_verify_mkdir_purge_extract_delete() {
    let work = local("w", "/stage");
    let (verify, mkdir, purge, extract, delete) =
        untar_directory("/data/dst".to_string(), &work, "abc.tar.gz".to_string());
    assert_eq!(verify, vec!["ls", "/stage/abc.tar.gz"]);
    assert_eq!(mkdir, vec!["mkdir", "-p", "/data/dst"]);
    assert_eq!(purge, vec!["rm", "-rf", "/data/dst"]);
    assert_eq!(extract, vec!["tar", "-xf", "/stage/abc.tar.gz", "-C", "/data"]);
    assert_eq!(delete, vec!["rm", "/stage/abc.tar.gz"]);
}
