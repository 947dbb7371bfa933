//! Remote hosts and the remote-command wrapper: resolving a folder's host
//! reference and prefixing command vectors with the remote-shell invocation.

use vstd::prelude::*;
use vstd::string::StringExecFns;

use crate::config::TomlSshServer;
use crate::folder::{Folder, FolderType};
use crate::text::{is_port_string, parse_port, spec_dec, spec_dec_value, u32_to_string};

verus! {

/// A named remote host: address, login identity, port, and the staging
/// directory used for archives on that host.
#[derive(Clone, Debug)]
pub struct SshServer {
    pub key: String,
    pub host: String,
    pub username: String,
    pub port: u32,
    pub work_folder: Folder,
}

impl SshServer {
    /// Builds a host entry from its configuration form; an absent port
    /// defaults to 22.
    pub fn new(key: String, toml_server: TomlSshServer, work_folder: Folder) -> (r: Self)
        requires
            toml_server.port matches Some(p) ==> is_port_string(p@),
        ensures
            r.key == key,
            r.host == toml_server.host,
            r.username == toml_server.username,
            r.work_folder == work_folder,
            r.port as nat == (match toml_server.port {
                None => 22,
                Some(p) => spec_dec_value(p@),
            }),
    {
        let port: u32 = match &toml_server.port {
            None => 22,
            Some(p) => parse_port(p.as_str()).unwrap(),
        };
        Self { key, host: toml_server.host, username: toml_server.username, port, work_folder }
    }
}

/// The host of `servers` whose key is `name`, if one exists; earlier entries
/// shadow later ones, as in a registry with unique keys.
pub open spec fn spec_find_server(servers: Seq<SshServer>, name: Seq<char>) -> Option<SshServer>
    decreases servers.len(),
{
    if servers.len() == 0 {
        None
    } else if servers[0].key@ == name {
        Some(servers[0])
    } else {
        spec_find_server(servers.drop_first(), name)
    }
}

/// Looks a remote host up by key in the host registry.
pub fn get(name: String, ssh_servers: &Vec<SshServer>) -> (r: Option<&SshServer>)
    ensures
        match r {
            None => spec_find_server(ssh_servers@, name@) is None,
            Some(s) => spec_find_server(ssh_servers@, name@) == Some(*s),
        },
{
    let mut i: usize = 0;
    proof {
        assert(ssh_servers@.skip(0) =~= ssh_servers@);
    }
    while i < ssh_servers.len()
        invariant
            0 <= i <= ssh_servers@.len(),
            spec_find_server(ssh_servers@, name@) == spec_find_server(
                ssh_servers@.skip(i as int),
                name@,
            ),
        decreases ssh_servers@.len() - i,
    {
        proof {
            assert(ssh_servers@.skip(i as int)[0] == ssh_servers@[i as int]);
        }
        if ssh_servers[i].key == name {
            return Some(&ssh_servers[i]);
        }
        proof {
            assert(ssh_servers@.skip(i as int).drop_first() =~= ssh_servers@.skip(i + 1));
        }
        i = i + 1;
    }
    proof {
        assert(ssh_servers@.skip(i as int) =~= Seq::<SshServer>::empty());
    }
    None
}

/// A remote folder whose host reference is present and resolves in the
/// host registry.
pub open spec fn side_resolvable(folder: Folder, servers: Seq<SshServer>) -> bool {
    &&& folder.ssh_key is Some
    &&& spec_find_server(servers, folder.ssh_key->0@) is Some
}

/// The host that a remote folder's reference resolves to.
pub open spec fn resolved_server(folder: Folder, servers: Seq<SshServer>) -> SshServer {
    spec_find_server(servers, folder.ssh_key->0@)->0
}

/// The remote-shell invocation for a host: the binary, the port option, and
/// the login target.
pub open spec fn spec_ssh_cmd(server: SshServer) -> Seq<Seq<char>> {
    seq![
        ("ssh")@,
        ("-p")@,
        spec_dec(server.port as nat),
        server.username@ + ("@")@ + server.host@,
    ]
}

/// The remote-shell invocation for the host that `folder` references.
pub fn ssh_cmd(folder: &Folder, ssh_servers: &Vec<SshServer>) -> (r: Vec<String>)
    requires
        side_resolvable(*folder, ssh_servers@),
    ensures
        r.deep_view() == spec_ssh_cmd(resolved_server(*folder, ssh_servers@)),
{
    let ssh_key = match &folder.ssh_key {
        Some(k) => k.clone(),
        None => String::new(),
    };
    let server = get(ssh_key, ssh_servers).unwrap();
    let mut connection = server.username.clone();
    connection.append("@");
    connection.append(server.host.as_str());
    let mut ssh_args: Vec<String> = Vec::new();
    ssh_args.push(String::from_str("ssh"));
    ssh_args.push(String::from_str("-p"));
    ssh_args.push(u32_to_string(server.port));
    ssh_args.push(connection);
    proof {
        assert(ssh_args.deep_view() =~= spec_ssh_cmd(resolved_server(*folder, ssh_servers@)));
    }
    ssh_args
}

/// `args` as it must be issued for `folder`'s side: unchanged for a local
/// folder, prefixed with the remote-shell invocation for a remote one.
pub open spec fn spec_wrap(folder: Folder, servers: Seq<SshServer>, args: Seq<Seq<char>>) -> Seq<
    Seq<char>,
> {
    match folder.target {
        FolderType::Local => args,
        FolderType::Ssh => spec_ssh_cmd(resolved_server(folder, servers)) + args,
    }
}

/// Wraps a base command for `folder`'s side. The argument vector itself is
/// left unchanged; the returned vector is the command to issue.
pub fn add_ssh_cmd(
    folder: &Folder,
    ssh_servers: &Vec<SshServer>,
    cmd_args: &mut Vec<String>,
) -> (r: Vec<String>)
    requires
        folder.is_remote() ==> side_resolvable(*folder, ssh_servers@),
    ensures
        *final(cmd_args) == *old(cmd_args),
        r.deep_view() == spec_wrap(*folder, ssh_servers@, old(cmd_args).deep_view()),
{
    match folder.target {
        FolderType::Ssh => {
            let mut full_cmd_args = ssh_cmd(folder, ssh_servers);
            let mut tail = crate::text::clone_args(cmd_args);
            full_cmd_args.append(&mut tail);
            proof {
                assert(full_cmd_args.deep_view() =~~= spec_ssh_cmd(
                    resolved_server(*folder, ssh_servers@),
                ) + cmd_args.deep_view());
            }
            full_cmd_args
        },
        FolderType::Local => {
            let r = crate::text::clone_args(cmd_args);
            proof {
                assert(r.deep_view() =~= cmd_args.deep_view());
            }
            r
        },
    }
}

/// One end of a remote-copy invocation: `user@host:work/name` for a remote
/// folder, `work/name` for a local one.
pub open spec fn spec_scp_endpoint(
    folder: Folder,
    work: Folder,
    tar_name: Seq<char>,
    servers: Seq<SshServer>,
) -> Seq<char> {
    match folder.target {
        FolderType::Ssh => {
            let s = resolved_server(folder, servers);
            s.username@ + ("@")@ + s.host@ + (":")@ + work.path@ + ("/")@ + tar_name
        },
        FolderType::Local => work.path@ + ("/")@ + tar_name,
    }
}

/// The port handed to the remote-copy command: the remote side's port, with
/// the destination taking precedence, and 22 when neither side is remote.
pub open spec fn spec_scp_port(from: Folder, to: Folder, servers: Seq<SshServer>) -> nat {
    if to.is_remote() {
        resolved_server(to, servers).port as nat
    } else if from.is_remote() {
        resolved_server(from, servers).port as nat
    } else {
        22
    }
}

/// The full remote-copy invocation moving the staged archive between the
/// two sides' staging directories.
pub open spec fn spec_scp_cmd(
    from: Folder,
    to: Folder,
    tar_name: Seq<char>,
    from_work: Folder,
    to_work: Folder,
    servers: Seq<SshServer>,
) -> Seq<Seq<char>> {
    seq![
        ("scp")@,
        ("-P")@,
        spec_dec(spec_scp_port(from, to, servers)),
        ("-r")@,
        spec_scp_endpoint(from, from_work, tar_name, servers),
        spec_scp_endpoint(to, to_work, tar_name, servers),
    ]
}

fn scp_endpoint(
    folder: &Folder,
    work: &Folder,
    tar_name: &String,
    ssh_servers: &Vec<SshServer>,
) -> (r: String)
    requires
        folder.is_remote() ==> side_resolvable(*folder, ssh_servers@),
    ensures
        r@ == spec_scp_endpoint(*folder, *work, tar_name@, ssh_servers@),
{
    match folder.target {
        FolderType::Ssh => {
            let ssh_key = match &folder.ssh_key {
                Some(k) => k.clone(),
                None => String::new(),
            };
            let server = get(ssh_key, ssh_servers).unwrap();
            let mut e = server.username.clone();
            e.append("@");
            e.append(server.host.as_str());
            e.append(":");
            e.append(work.path.as_str());
            e.append("/");
            e.append(tar_name.as_str());
            e
        },
        FolderType::Local => {
            let mut e = work.path.clone();
            e.append("/");
            e.append(tar_name.as_str());
            e
        },
    }
}

/// The remote-copy invocation for moving the staged archive from the source
/// side's staging directory to the destination side's.
pub fn scp_cmd(
    from_folder: &Folder,
    to_folder: &Folder,
    tar_name: String,
    from_work_folder: &Folder,
    to_work_folder: &Folder,
    ssh_servers: &Vec<SshServer>,
) -> (r: Vec<String>)
    requires
        from_folder.is_remote() ==> side_resolvable(*from_folder, ssh_servers@),
        to_folder.is_remote() ==> side_resolvable(*to_folder, ssh_servers@),
    ensures
        r.deep_view() == spec_scp_cmd(
            *from_folder,
            *to_folder,
            tar_name@,
            *from_work_folder,
            *to_work_folder,
            ssh_servers@,
        ),
{
    let from_path = scp_endpoint(from_folder, from_work_folder, &tar_name, ssh_servers);
    let to_path = scp_endpoint(to_folder, to_work_folder, &tar_name, ssh_servers);
    let port: u32 = if to_folder.is_ssh() {
        let ssh_key = match &to_folder.ssh_key {
            Some(k) => k.clone(),
            None => String::new(),
        };
        get(ssh_key, ssh_servers).unwrap().port
    } else if from_folder.is_ssh() {
        let ssh_key = match &from_folder.ssh_key {
            Some(k) => k.clone(),
            None => String::new(),
        };
        get(ssh_key, ssh_servers).unwrap().port
    } else {
        22
    };
    let mut scp_args: Vec<String> = Vec::new();
    scp_args.push(String::from_str("scp"));
    scp_args.push(String::from_str("-P"));
    scp_args.push(u32_to_string(port));
    scp_args.push(String::from_str("-r"));
    scp_args.push(from_path);
    scp_args.push(to_path);
    proof {
        assert(scp_args.deep_view() =~= spec_scp_cmd(
            *from_folder,
            *to_folder,
            tar_name@,
            *from_work_folder,
            *to_work_folder,
            ssh_servers@,
        ));
    }
    scp_args
}

/// The remote-shell wrapper leaves a local folder's command unchanged.
pub proof fn lemma_wrap_local(folder: Folder, servers: Seq<SshServer>, args: Seq<Seq<char>>)
    requires
        !folder.is_remote(),
    ensures
        spec_wrap(folder, servers, args) == args,
{
}

/// For a remote folder with a resolvable host, the wrapped command begins
/// with the remote-shell binary, carries the host's port in decimal, and
/// ends with the base command unchanged and in order.
pub proof fn lemma_wrap_remote(folder: Folder, servers: Seq<SshServer>, args: Seq<Seq<char>>)
    requires
        folder.is_remote(),
        side_resolvable(folder, servers),
    ensures
        spec_wrap(folder, servers, args).len() == 4 + args.len(),
        spec_wrap(folder, servers, args)[0] == ("ssh")@,
        spec_wrap(folder, servers, args)[2] == spec_dec(
            resolved_server(folder, servers).port as nat,
        ),
        spec_wrap(folder, servers, args).subrange(4, 4 + args.len() as int) == args,
{
    assert(spec_wrap(folder, servers, args).subrange(4, 4 + args.len() as int) =~= args);
}

} // verus!
