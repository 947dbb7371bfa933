use dirsync::config::{
    parse_config, ConfigError, TomlConfig, TomlFolder, TomlLink, TomlSshServer, TomlType,
};
use dirsync::folder::FolderType;
use dirsync::ssh::SshServer;
use dirsync::text::{contains_str, is_confirmation, parse_port, u32_to_string};

fn toml_folder(path: &str, target: TomlType, ssh_key: Option<&str>) -> TomlFolder {
    TomlFolder {
        path: path.to_string(),
        target,
        ssh_key: ssh_key.map(|k| k.to_string()),
    }
}

fn sample_config() -> TomlConfig {
    TomlConfig {
        local_work_dir: "work".to_string(),
        folders: vec![
            ("work".to_string(), toml_folder("/stage", TomlType::Local, None)),
            ("src".to_string(), toml_folder("/src", TomlType::Local, None)),
            ("backup".to_string(), toml_folder("/backup", TomlType::Ssh, Some("box"))),
        ],
        links: vec![(
            "mirror".to_string(),
            TomlLink {
                local: "src".to_string(),
                target: "backup".to_string(),
                paths: vec!["a".to_string(), "b".to_string()],
                partial_only: "false".to_string(),
            },
        )],
        ssh: vec![(
            "box".to_string(),
            TomlSshServer {
                host: "example.net".to_string(),
                username: "alice".to_string(),
                work_dir: "/rstage".to_string(),
                port: Some("2222".to_string()),
            },
        )],
    }
}

#[test]
fn parse_config_builds_all_registries() {
    let (servers, folders, links, work) = parse_config(sample_config()).expect("valid config");
    assert_eq!(servers.len(), 1);
    assert_eq!(servers[0].key, "box");
    assert_eq!(servers[0].host, "example.net");
    assert_eq!(servers[0].username, "alice");
    assert_eq!(servers[0].port, 2222);
    assert_eq!(servers[0].work_folder.path, "/rstage");
    assert!(matches!(servers[0].work_folder.target, FolderType::Local));

    assert_eq!(folders.len(), 3);
    assert_eq!(folders[1].name, "src");
    assert_eq!(folders[1].path, "/src");
    assert!(matches!(folders[2].target, FolderType::Ssh));
    assert_eq!(folders[2].ssh_key.as_deref(), Some("box"));

    assert_eq!(links.len(), 1);
    assert_eq!(links[0].name, "mirror");
    assert_eq!(links[0].local.name, "src");
    assert_eq!(links[0].target.name, "backup");
    assert_eq!(links[0].paths, vec!["a", "b"]);
    assert!(!links[0].partial_only);

    assert_eq!(work.name, "work");
    assert_eq!(work.path, "/stage");
}

#[test]
fn parse_config_defaults_port_to_22() {
    let mut config = sample_config();
    config.ssh[0].1.port = None;
    let (servers, _, _, _) = parse_config(config).expect("valid config");
    assert_eq!(servers[0].port, 22);
}

#[test]
fn parse_config_rejects_bad_port() {
    let mut config = sample_config();
    config.ssh[0].1.port = Some("not-a-number".to_string());
    assert!(matches!(parse_config(config), Err(ConfigError::BadPort)));
}

#[test]
fn parse_config_rejects_missing_work_folder() {
    let mut config = sample_config();
    config.local_work_dir = "absent".to_string();
    assert!(matches!(parse_config(config), Err(ConfigError::MissingWorkFolder)));
}

#[test]
fn parse_config_drops_link_with_unknown_folder() {
    let mut config = sample_config();
    config.links[0].1.target = "nowhere".to_string();
    let (_, _, links, _) = parse_config(config).expect("valid config");
    assert!(links.is_empty());
}

#[test]
fn parse_config_marks_partial_only_links() {
    let mut config = sample_config();
    config.links[0].1.partial_only = "true".to_string();
    let (_, _, links, _) = parse_config(config).expect("valid config");
    assert!(links[0].partial_only);
}

#[test]
fn ssh_server_new_parses_port_and_defaults() {
    let work = dirsync::folder::current_dir_folder("/w".to_string());
    let with_port = SshServer::new(
        "k".to_string(),
        TomlSshServer {
            host: "h".to_string(),
            username: "u".to_string(),
            work_dir: "/w".to_string(),
            port: Some("80".to_string()),
        },
        work.clone(),
    );
    assert_eq!(with_port.port, 80);
    let without_port = SshServer::new(
        "k".to_string(),
        TomlSshServer {
            host: "h".to_string(),
            username: "u".to_string(),
            work_dir: "/w".to_string(),
            port: None,
        },
        work,
    );
    assert_eq!(without_port.port, 22);
}

#[test]
fn folder_type_follows_configured_kind() {
    assert!(matches!(FolderType::get_folder_type(TomlType::Local), FolderType::Local));
    assert!(matches!(FolderType::get_folder_type(TomlType::Ssh), FolderType::Ssh));
}

#[test]
fn link_lookup_finds_by_name() {
    let (_, _, links, _) = parse_config(sample_config()).expect("valid config");
    let found = dirsync::link::get("mirror".to_string(), &links);
    assert!(found.is_some());
    assert_eq!(found.unwrap().name, "mirror");
    assert!(dirsync::link::get("other".to_string(), &links).is_none());
}

#[test]
fn folder_lookup_finds_by_name() {
    let (_, folders, _, _) = parse_config(sample_config()).expect("valid config");
    let found = dirsync::folder::get("backup".to_string(), &folders).expect("backup exists");
    assert_eq!(found.path, "/backup");
    assert!(dirsync::folder::get("absent".to_string(), &folders).is_none());
}

#[test]
fn parse_port_accepts_digits_within_range() {
    assert_eq!(parse_port("0"), Some(0));
    assert_eq!(parse_port("22"), Some(22));
    assert_eq!(parse_port("4294967295"), Some(u32::MAX));
}

#[test]
fn parse_port_rejects_empty_nondigit_and_overflow() {
    assert_eq!(parse_port(""), None);
    assert_eq!(parse_port("2a"), None);
    assert_eq!(parse_port("-1"), None);
    assert_eq!(parse_port("4294967296"), None);
}

#[test]
fn u32_to_string_renders_decimal() {
    assert_eq!(u32_to_string(0), "0");
    assert_eq!(u32_to_string(307), "307");
    assert_eq!(u32_to_string(u32::MAX), "4294967295");
}

#[test]
fn contains_str_finds_the_missing_marker() {
    assert!(contains_str("ls: cannot access '/x': No such file or directory", "No such"));
    assert!(!contains_str("a.txt  b.txt", "No such"));
    assert!(contains_str("anything", ""));
}

#[test]
fn confirmation_accepts_exactly_trimmed_y() {
    assert!(is_confirmation("y"));
    assert!(is_confirmation(" y\n"));
    assert!(is_confirmation("\ty\r\n"));
    assert!(!is_confirmation("n"));
    assert!(!is_confirmation(""));
    assert!(!is_confirmation("yes"));
    assert!(!is_confirmation("Y"));
}
