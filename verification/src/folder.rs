//! Locations taking part in a sync or list operation: a named folder that is
//! either a local path or a path on a named remote host.

use vstd::prelude::*;
use vstd::string::StringExecFns;

verus! {

/// Whether a folder lives on this machine or on a remote host.
#[derive(Clone, Copy, Debug, PartialEq, Eq, Structural)]
pub enum FolderType {
    Local,
    Ssh,
}

impl FolderType {
    /// Maps the configuration-file variant onto the runtime variant.
    pub fn get_folder_type(toml_type: crate::config::TomlType) -> (r: Self)
        ensures
            r == (match toml_type {
                crate::config::TomlType::Local => FolderType::Local,
                crate::config::TomlType::Ssh => FolderType::Ssh,
            }),
    {
        let folder_type = match toml_type {
            crate::config::TomlType::Local => FolderType::Local,
            crate::config::TomlType::Ssh => FolderType::Ssh,
        };
        folder_type
    }
}

/// A named location: an absolute base path, a kind, and — for remote
/// folders — the key of the remote host that owns the path.
#[derive(Clone, Debug)]
pub struct Folder {
    pub name: String,
    pub path: String,
    pub target: FolderType,
    pub ssh_key: Option<String>,
}

impl Folder {
    /// True when the folder lives on a remote host.
    pub open spec fn is_remote(self) -> bool {
        self.target is Ssh
    }

    /// Whether the folder lives on a remote host.
    pub fn is_ssh(&self) -> (r: bool)
        ensures
            r == self.is_remote(),
    {
        match self.target {
            FolderType::Ssh => true,
            FolderType::Local => false,
        }
    }

    /// An explicit copy whose fields equal the original's.
    pub fn duplicate(&self) -> (r: Folder)
        ensures
            r == *self,
    {
        Folder {
            name: self.name.clone(),
            path: self.path.clone(),
            target: self.target,
            ssh_key: crate::text::clone_opt_string(&self.ssh_key),
        }
    }
}

/// The local folder standing for the working directory the process was
/// started in; the caller supplies the directory's path.
pub fn current_dir_folder(path: String) -> (r: Folder)
    ensures
        r.name@ == ("current_working_directory")@,
        r.path == path,
        r.target == FolderType::Local,
        r.ssh_key is None,
{
    Folder {
        name: String::from_str("current_working_directory"),
        path,
        target: FolderType::Local,
        ssh_key: None,
    }
}

/// The folder of `folders` whose name is `name`, if one exists; earlier
/// entries shadow later ones, as in a registry with unique names.
pub open spec fn spec_find_folder(folders: Seq<Folder>, name: Seq<char>) -> Option<Folder>
    decreases folders.len(),
{
    if folders.len() == 0 {
        None
    } else if folders[0].name@ == name {
        Some(folders[0])
    } else {
        spec_find_folder(folders.drop_first(), name)
    }
}

/// Looks a folder up by name in the folder registry.
pub fn get(name: String, folders: &Vec<Folder>) -> (r: Option<Folder>)
    ensures
        r == spec_find_folder(folders@, name@),
{
    let mut i: usize = 0;
    proof {
        assert(folders@.skip(0) =~= folders@);
    }
    while i < folders.len()
        invariant
            0 <= i <= folders@.len(),
            spec_find_folder(folders@, name@) == spec_find_folder(folders@.skip(i as int), name@),
        decreases folders@.len() - i,
    {
        proof {
            assert(folders@.skip(i as int)[0] == folders@[i as int]);
        }
        if folders[i].name == name {
            return Some(folders[i].duplicate());
        }
        proof {
            assert(folders@.skip(i as int).drop_first() =~= folders@.skip(i + 1));
        }
        i = i + 1;
    }
    proof {
        assert(folders@.skip(i as int) =~= Seq::<Folder>::empty());
    }
    None
}

} // verus!
