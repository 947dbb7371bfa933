//! Configuration data as it arrives from the TOML file, and the verified
//! translation of that data into the runtime registries.

use vstd::prelude::*;

use crate::folder::{spec_find_folder, Folder, FolderType};
use crate::link::Link;
use crate::ssh::SshServer;
use crate::text::{clone_opt_string, is_port_string, parse_port, spec_dec_value};

verus! {

/// A folder entry as written in the configuration file.
#[derive(Clone, Debug)]
pub struct TomlFolder {
    pub path: String,
    pub target: TomlType,
    pub ssh_key: Option<String>,
}

/// A link entry: a pairing of two named folders plus optional sub-paths.
#[derive(Clone, Debug)]
pub struct TomlLink {
    pub local: String,
    pub target: String,
    pub paths: Vec<String>,
    pub partial_only: String,
}

/// A remote host entry: address, login, optional port, and the staging
/// directory used for archives on that host.
#[derive(Clone, Debug)]
pub struct TomlSshServer {
    pub host: String,
    pub username: String,
    pub work_dir: String,
    pub port: Option<String>,
}

/// The kind written for a folder in the configuration file.
#[derive(Clone, Copy, Debug, PartialEq, Eq, Structural)]
pub enum TomlType {
    Local,
    Ssh,
}

/// The whole configuration file: named folders, links, and remote hosts,
/// plus the name of the folder used as the local staging directory.
#[derive(Clone, Debug)]
pub struct TomlConfig {
    pub local_work_dir: String,
    pub folders: Vec<(String, TomlFolder)>,
    pub links: Vec<(String, TomlLink)>,
    pub ssh: Vec<(String, TomlSshServer)>,
}

/// Why a configuration cannot be turned into registries.
#[derive(Clone, Copy, Debug, PartialEq, Eq, Structural)]
pub enum ConfigError {
    /// A remote host entry carries a port that is not a decimal number in
    /// the unsigned 32-bit range.
    BadPort,
    /// No folder entry carries the name chosen as the local work folder.
    MissingWorkFolder,
}

/// The runtime folder a configuration entry stands for.
pub open spec fn spec_folder_entry(e: (String, TomlFolder)) -> Folder {
    Folder {
        name: e.0,
        path: e.1.path,
        target: match e.1.target {
            TomlType::Local => FolderType::Local,
            TomlType::Ssh => FolderType::Ssh,
        },
        ssh_key: e.1.ssh_key,
    }
}

/// The runtime folders of all configuration entries, in order.
pub open spec fn spec_folders_of(entries: Seq<(String, TomlFolder)>) -> Seq<Folder> {
    entries.map_values(|e: (String, TomlFolder)| spec_folder_entry(e))
}

/// Some remote host entry carries an unusable port string.
pub open spec fn spec_has_bad_port(entries: Seq<(String, TomlSshServer)>) -> bool {
    exists|i: int|
        0 <= i < entries.len() && entries[i].1.port is Some && !is_port_string(
            entries[i].1.port->0@,
        )
}

/// `s` is the runtime host that configuration entry `e` stands for: the key
/// and connection data carried over, the port parsed with its default, and
/// the host's own staging folder built from its work directory.
pub open spec fn server_matches_entry(s: SshServer, e: (String, TomlSshServer)) -> bool {
    &&& s.key == e.0
    &&& s.host == e.1.host
    &&& s.username == e.1.username
    &&& s.port as nat == (match e.1.port {
        None => 22,
        Some(p) => spec_dec_value(p@),
    })
    &&& s.work_folder == (Folder {
        name: e.0,
        path: e.1.work_dir,
        target: FolderType::Local,
        ssh_key: None,
    })
}

/// Both named folders of a link entry resolve in the folder registry.
pub open spec fn link_entry_resolvable(e: (String, TomlLink), folders: Seq<Folder>) -> bool {
    &&& spec_find_folder(folders, e.1.local@) is Some
    &&& spec_find_folder(folders, e.1.target@) is Some
}

/// `l` is the runtime link that configuration entry `e` stands for.
pub open spec fn link_matches_entry(l: Link, e: (String, TomlLink), folders: Seq<Folder>) -> bool {
    &&& l.name == e.0
    &&& Some(l.local) == spec_find_folder(folders, e.1.local@)
    &&& Some(l.target) == spec_find_folder(folders, e.1.target@)
    &&& l.paths@ == e.1.paths@
    &&& l.partial_only == (e.1.partial_only@ == ("true")@)
}

/// `links` holds, in order, exactly the runtime links of those entries whose
/// folders resolve; unresolvable entries are dropped.
pub open spec fn links_match(
    links: Seq<Link>,
    entries: Seq<(String, TomlLink)>,
    folders: Seq<Folder>,
) -> bool
    decreases entries.len(),
{
    if entries.len() == 0 {
        links.len() == 0
    } else if link_entry_resolvable(entries.last(), folders) {
        &&& links.len() >= 1
        &&& link_matches_entry(links.last(), entries.last(), folders)
        &&& links_match(links.drop_last(), entries.drop_last(), folders)
    } else {
        links_match(links, entries.drop_last(), folders)
    }
}

fn duplicate_toml_server(e: &TomlSshServer) -> (r: TomlSshServer)
    ensures
        r == *e,
{
    TomlSshServer {
        host: e.host.clone(),
        username: e.username.clone(),
        work_dir: e.work_dir.clone(),
        port: clone_opt_string(&e.port),
    }
}

/// Builds the runtime registries from the parsed configuration: the remote
/// hosts with their staging folders, the named folders, the resolvable
/// links, and the shared local work folder.
pub fn parse_config(config: TomlConfig) -> (r: Result<
    (Vec<SshServer>, Vec<Folder>, Vec<Link>, Folder),
    ConfigError,
>)
    ensures
        spec_has_bad_port(config.ssh@) ==> r == Result::<
            (Vec<SshServer>, Vec<Folder>, Vec<Link>, Folder),
            ConfigError,
        >::Err(ConfigError::BadPort),
        !spec_has_bad_port(config.ssh@) && spec_find_folder(
            spec_folders_of(config.folders@),
            config.local_work_dir@,
        ) is None ==> r == Result::<
            (Vec<SshServer>, Vec<Folder>, Vec<Link>, Folder),
            ConfigError,
        >::Err(ConfigError::MissingWorkFolder),
        !spec_has_bad_port(config.ssh@) && spec_find_folder(
            spec_folders_of(config.folders@),
            config.local_work_dir@,
        ) is Some ==> r is Ok,
        r matches Ok(t) ==> {
            &&& t.0@.len() == config.ssh@.len()
            &&& forall|i: int|
                0 <= i < config.ssh@.len() ==> server_matches_entry(
                    #[trigger] t.0@[i],
                    config.ssh@[i],
                )
            &&& t.1@ == spec_folders_of(config.folders@)
            &&& links_match(t.2@, config.links@, spec_folders_of(config.folders@))
            &&& Some(t.3) == spec_find_folder(
                spec_folders_of(config.folders@),
                config.local_work_dir@,
            )
        },
{
    let mut ssh_servers: Vec<SshServer> = Vec::new();
    let mut i: usize = 0;
    while i < config.ssh.len()
        invariant
            0 <= i <= config.ssh@.len(),
            ssh_servers@.len() == i,
            forall|k: int|
                0 <= k < i ==> server_matches_entry(#[trigger] ssh_servers@[k], config.ssh@[k]),
            forall|k: int|
                0 <= k < i ==> !(config.ssh@[k].1.port is Some && !is_port_string(
                    config.ssh@[k].1.port->0@,
                )),
        decreases config.ssh@.len() - i,
    {
        let entry = &config.ssh[i];
        let port_ok = match &entry.1.port {
            None => true,
            Some(p) => parse_port(p.as_str()).is_some(),
        };
        if !port_ok {
            proof {
                assert(spec_has_bad_port(config.ssh@));
            }
            return Err(ConfigError::BadPort);
        }
        let key = entry.0.clone();
        let work_folder = Folder {
            name: entry.0.clone(),
            path: entry.1.work_dir.clone(),
            target: FolderType::Local,
            ssh_key: None,
        };
        let server = SshServer::new(key, duplicate_toml_server(&entry.1), work_folder);
        ssh_servers.push(server);
        i = i + 1;
    }

    let mut folders: Vec<Folder> = Vec::new();
    let mut i: usize = 0;
    while i < config.folders.len()
        invariant
            0 <= i <= config.folders@.len(),
            folders@.len() == i,
            forall|k: int| 0 <= k < i ==> folders@[k] == spec_folder_entry(config.folders@[k]),
        decreases config.folders@.len() - i,
    {
        let entry = &config.folders[i];
        let folder = Folder {
            name: entry.0.clone(),
            path: entry.1.path.clone(),
            target: crate::folder::FolderType::get_folder_type(entry.1.target),
            ssh_key: clone_opt_string(&entry.1.ssh_key),
        };
        folders.push(folder);
        i = i + 1;
    }
    proof {
        assert(folders@ =~= spec_folders_of(config.folders@));
    }

    let work_folder = match crate::folder::get(config.local_work_dir.clone(), &folders) {
        None => {
            return Err(ConfigError::MissingWorkFolder);
        },
        Some(f) => f,
    };

    let mut links: Vec<Link> = Vec::new();
    let mut i: usize = 0;
    proof {
        assert(config.links@.subrange(0, 0) =~= Seq::<(String, TomlLink)>::empty());
    }
    while i < config.links.len()
        invariant
            0 <= i <= config.links@.len(),
            folders@ == spec_folders_of(config.folders@),
            links_match(links@, config.links@.subrange(0, i as int), folders@),
        decreases config.links@.len() - i,
    {
        let entry = &config.links[i];
        let local_folder = crate::folder::get(entry.1.local.clone(), &folders);
        let target_folder = crate::folder::get(entry.1.target.clone(), &folders);
        proof {
            assert(config.links@.subrange(0, i + 1).drop_last() =~= config.links@.subrange(
                0,
                i as int,
            ));
            assert(config.links@.subrange(0, i + 1).last() == config.links@[i as int]);
        }
        let ghost prev_links = links@;
        match (local_folder, target_folder) {
            (Some(local), Some(target)) => {
                let truth = String::from_str("true");
                let link = Link {
                    name: entry.0.clone(),
                    local,
                    target,
                    paths: crate::text::clone_args(&entry.1.paths),
                    partial_only: entry.1.partial_only == truth,
                };
                links.push(link);
                proof {
                    assert(links@.drop_last() =~= prev_links);
                }
            },
            _ => {},
        }
        i = i + 1;
    }
    proof {
        assert(config.links@.subrange(0, config.links@.len() as int) =~= config.links@);
    }

    Ok((ssh_servers, folders, links, work_folder))
}

} // verus!
