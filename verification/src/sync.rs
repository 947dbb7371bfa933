//! The sync orchestrator: effective-path resolution, the full operation
//! plan, and the state machine that gates execution behind the source
//! existence check and the user's confirmation.

use vstd::prelude::*;
use vstd::string::StringExecFns;

use crate::folder::{Folder, FolderType};
use crate::ssh::{
    add_ssh_cmd, get, resolved_server, scp_cmd, side_resolvable, spec_scp_cmd, spec_wrap,
    SshServer,
};
use crate::tar::{
    is_archive_name, spec_create_tar_cmd, spec_delete_tar_cmd, spec_exists_check_cmd,
    spec_mkdir_cmd, spec_purge_cmd, spec_untar_cmd, spec_verify_tar_cmd, tar_directory,
    untar_directory,
};
use crate::text::{clone_args, contains_seq, contains_str, is_confirmation, spec_trim};

verus! {

/// The effective path of a folder for one operation: the base path alone, or
/// the base path extended by the relative sub-path.
pub open spec fn spec_build_path(folder: Folder, relative_path: Option<String>) -> Seq<char> {
    match relative_path {
        None => folder.path@,
        Some(p) => folder.path@ + ("/")@ + p@,
    }
}

/// Joins a folder's base path with an optional relative sub-path. No
/// normalization and no existence check.
pub fn build_path(folder: &Folder, relative_path: &Option<String>) -> (r: String)
    ensures
        r@ == spec_build_path(*folder, *relative_path),
{
    match relative_path {
        Some(p) => {
            let mut r = folder.path.clone();
            r.append("/");
            r.append(p.as_str());
            r
        },
        None => folder.path.clone(),
    }
}

/// The long-format listing of a path.
pub open spec fn spec_ls_base_cmd(path: Seq<char>) -> Seq<Seq<char>> {
    seq![("ls")@, ("-l")@, path]
}

/// The command the list operation issues: a long-format listing of the
/// folder's effective path, wrapped for the folder's side.
pub fn ls_command(
    folder: &Folder,
    ssh_servers: &Vec<SshServer>,
    relative_path: &Option<String>,
) -> (r: Vec<String>)
    requires
        folder.is_remote() ==> side_resolvable(*folder, ssh_servers@),
    ensures
        r.deep_view() == spec_wrap(
            *folder,
            ssh_servers@,
            spec_ls_base_cmd(spec_build_path(*folder, *relative_path)),
        ),
{
    let path = build_path(folder, relative_path);
    let mut cmd_args: Vec<String> = Vec::new();
    cmd_args.push(String::from_str("ls"));
    cmd_args.push(String::from_str("-l"));
    cmd_args.push(path);
    proof {
        assert(cmd_args.deep_view() =~= spec_ls_base_cmd(
            spec_build_path(*folder, *relative_path),
        ));
    }
    add_ssh_cmd(folder, ssh_servers, &mut cmd_args)
}

/// Why a sync operation could not even be planned.
#[derive(Clone, Copy, Debug, PartialEq, Eq, Structural)]
pub enum SyncError {
    /// Both sides are remote; at most one may be.
    BothRemote,
    /// A remote side names no host reference.
    NoSshKey,
    /// A remote side's host reference resolves to no registered host.
    HostNotFound,
}

/// The complete plan for one sync operation: every command already wrapped
/// for its side, in the order it must run.
pub struct SyncPlan {
    pub tar_name: String,
    pub check_source: Vec<String>,
    pub create_tar: Vec<String>,
    pub copy: Vec<String>,
    pub make_target_dirs: Vec<String>,
    pub verify_tar: Vec<String>,
    pub purge_target: Vec<String>,
    pub untar: Vec<String>,
    pub delete_to_tar: Vec<String>,
    pub delete_from_tar: Vec<String>,
}

/// The staging directory used for one side: the remote host's own staging
/// folder for a remote side, the shared local work folder otherwise.
pub open spec fn spec_work_for(folder: Folder, servers: Seq<SshServer>, work: Folder) -> Folder {
    if folder.is_remote() {
        resolved_server(folder, servers).work_folder
    } else {
        work
    }
}

/// The planning error owed for one side, if any: a remote side must carry a
/// host reference, and the reference must resolve.
pub open spec fn spec_side_error(folder: Folder, servers: Seq<SshServer>) -> Option<SyncError> {
    if !folder.is_remote() {
        None
    } else if folder.ssh_key is None {
        Some(SyncError::NoSshKey)
    } else if crate::ssh::spec_find_server(servers, folder.ssh_key->0@) is None {
        Some(SyncError::HostNotFound)
    } else {
        None
    }
}

/// Every command of `plan` equals the command owed for the given operation:
/// paths resolved per side, archive steps wrapped for the source, unarchive
/// steps wrapped for the destination, and the transfer chosen by whether a
/// side is remote.
pub open spec fn plan_matches(
    plan: SyncPlan,
    from: Folder,
    to: Folder,
    work: Folder,
    servers: Seq<SshServer>,
    relative_path: Option<String>,
) -> bool {
    let from_path = spec_build_path(from, relative_path);
    let to_path = spec_build_path(to, relative_path);
    let fw = spec_work_for(from, servers, work);
    let tw = spec_work_for(to, servers, work);
    let name = plan.tar_name@;
    &&& is_archive_name(name)
    &&& plan.check_source.deep_view() == spec_wrap(from, servers, spec_exists_check_cmd(from_path))
    &&& plan.create_tar.deep_view() == spec_wrap(
        from,
        servers,
        spec_create_tar_cmd(from_path, fw.path@, name),
    )
    &&& plan.copy.deep_view() == (if from.is_remote() || to.is_remote() {
        spec_scp_cmd(from, to, name, fw, tw, servers)
    } else {
        seq![("cp")@, ("-R")@, from_path, to_path]
    })
    &&& plan.make_target_dirs.deep_view() == spec_wrap(to, servers, spec_mkdir_cmd(to_path))
    &&& plan.verify_tar.deep_view() == spec_wrap(
        to,
        servers,
        spec_verify_tar_cmd(tw.path@, name),
    )
    &&& plan.purge_target.deep_view() == spec_wrap(to, servers, spec_purge_cmd(to_path))
    &&& plan.untar.deep_view() == spec_wrap(to, servers, spec_untar_cmd(to_path, tw.path@, name))
    &&& plan.delete_to_tar.deep_view() == spec_wrap(
        to,
        servers,
        spec_delete_tar_cmd(tw.path@, name),
    )
    &&& plan.delete_from_tar.deep_view() == spec_wrap(
        from,
        servers,
        spec_delete_tar_cmd(fw.path@, name),
    )
}

impl SyncPlan {
    /// The mutating steps in the exact order they must run: create the
    /// archive, transfer it, create the destination tree, verify the staged
    /// archive, purge the destination, extract, then delete both staged
    /// archives.
    pub open spec fn spec_steps(self) -> Seq<Seq<Seq<char>>> {
        seq![
            self.create_tar.deep_view(),
            self.copy.deep_view(),
            self.make_target_dirs.deep_view(),
            self.verify_tar.deep_view(),
            self.purge_target.deep_view(),
            self.untar.deep_view(),
            self.delete_to_tar.deep_view(),
            self.delete_from_tar.deep_view(),
        ]
    }

    /// The mutating steps, in execution order.
    pub fn steps(&self) -> (r: Vec<Vec<String>>)
        ensures
            r.deep_view() == self.spec_steps(),
    {
        let mut r: Vec<Vec<String>> = Vec::new();
        r.push(clone_args(&self.create_tar));
        r.push(clone_args(&self.copy));
        r.push(clone_args(&self.make_target_dirs));
        r.push(clone_args(&self.verify_tar));
        r.push(clone_args(&self.purge_target));
        r.push(clone_args(&self.untar));
        r.push(clone_args(&self.delete_to_tar));
        r.push(clone_args(&self.delete_from_tar));
        proof {
            assert(r.deep_view() =~~= self.spec_steps());
        }
        r
    }
}

/// Every sync plan is a non-empty step list in the fixed order: archive
/// creation precedes the transfer, which precedes the destination mkdir,
/// which precedes the purge, which precedes the extraction, which precedes
/// both archive deletions.
pub proof fn lemma_plan_step_order(plan: SyncPlan)
    ensures
        plan.spec_steps().len() == 8,
        plan.spec_steps()[0] == plan.create_tar.deep_view(),
        plan.spec_steps()[1] == plan.copy.deep_view(),
        plan.spec_steps()[2] == plan.make_target_dirs.deep_view(),
        plan.spec_steps()[3] == plan.verify_tar.deep_view(),
        plan.spec_steps()[4] == plan.purge_target.deep_view(),
        plan.spec_steps()[5] == plan.untar.deep_view(),
        plan.spec_steps()[6] == plan.delete_to_tar.deep_view(),
        plan.spec_steps()[7] == plan.delete_from_tar.deep_view(),
{
}

/// Builds the full plan for syncing `from_folder` to `to_folder`: resolves
/// both effective paths, rejects a dual-remote pair, resolves each remote
/// side's host, and assembles every command already wrapped for its side.
pub fn plan_sync(
    from_folder: &Folder,
    to_folder: &Folder,
    work_folder: &Folder,
    ssh_servers: &Vec<SshServer>,
    relative_path: &Option<String>,
) -> (r: Result<SyncPlan, SyncError>)
    ensures
        r is Err <==> (from_folder.is_remote() && to_folder.is_remote()) || spec_side_error(
            *from_folder,
            ssh_servers@,
        ) is Some || spec_side_error(*to_folder, ssh_servers@) is Some,
        from_folder.is_remote() && to_folder.is_remote() ==> r == Result::<
            SyncPlan,
            SyncError,
        >::Err(SyncError::BothRemote),
        !(from_folder.is_remote() && to_folder.is_remote()) && spec_side_error(
            *from_folder,
            ssh_servers@,
        ) is Some ==> r == Result::<SyncPlan, SyncError>::Err(
            spec_side_error(*from_folder, ssh_servers@)->0,
        ),
        !(from_folder.is_remote() && to_folder.is_remote()) && spec_side_error(
            *from_folder,
            ssh_servers@,
        ) is None && spec_side_error(*to_folder, ssh_servers@) is Some ==> r == Result::<
            SyncPlan,
            SyncError,
        >::Err(spec_side_error(*to_folder, ssh_servers@)->0),
        r matches Ok(plan) ==> plan_matches(
            plan,
            *from_folder,
            *to_folder,
            *work_folder,
            ssh_servers@,
            *relative_path,
        ),
{
    let from_path = build_path(from_folder, relative_path);
    let to_path = build_path(to_folder, relative_path);

    let is_from_ssh = from_folder.is_ssh();
    let is_to_ssh = to_folder.is_ssh();
    if is_from_ssh && is_to_ssh {
        return Err(SyncError::BothRemote);
    }

    let from_work: &Folder = if is_from_ssh {
        match &from_folder.ssh_key {
            None => {
                return Err(SyncError::NoSshKey);
            },
            Some(key) => {
                match get(key.clone(), ssh_servers) {
                    None => {
                        return Err(SyncError::HostNotFound);
                    },
                    Some(server) => &server.work_folder,
                }
            },
        }
    } else {
        work_folder
    };

    let to_work: &Folder = if is_to_ssh {
        match &to_folder.ssh_key {
            None => {
                return Err(SyncError::NoSshKey);
            },
            Some(key) => {
                match get(key.clone(), ssh_servers) {
                    None => {
                        return Err(SyncError::HostNotFound);
                    },
                    Some(server) => &server.work_folder,
                }
            },
        }
    } else {
        work_folder
    };

    let (tar_name, mut tar_source_exists_args, mut create_tar_args, mut delete_from_tar_args) =
        tar_directory(from_path.clone(), from_work);
    let check_source = add_ssh_cmd(from_folder, ssh_servers, &mut tar_source_exists_args);
    let create_tar = add_ssh_cmd(from_folder, ssh_servers, &mut create_tar_args);
    let delete_from_tar = add_ssh_cmd(from_folder, ssh_servers, &mut delete_from_tar_args);

    let (
        mut verify_tar_args,
        mut make_path_args,
        mut purge_target_args,
        mut untar_args,
        mut delete_to_tar_args,
    ) = untar_directory(to_path.clone(), to_work, tar_name.clone());
    let verify_tar = add_ssh_cmd(to_folder, ssh_servers, &mut verify_tar_args);
    let make_target_dirs = add_ssh_cmd(to_folder, ssh_servers, &mut make_path_args);
    let purge_target = add_ssh_cmd(to_folder, ssh_servers, &mut purge_target_args);
    let untar = add_ssh_cmd(to_folder, ssh_servers, &mut untar_args);
    let delete_to_tar = add_ssh_cmd(to_folder, ssh_servers, &mut delete_to_tar_args);

    let copy: Vec<String> = if is_from_ssh || is_to_ssh {
        scp_cmd(from_folder, to_folder, tar_name.clone(), from_work, to_work, ssh_servers)
    } else {
        let mut c: Vec<String> = Vec::new();
        c.push(String::from_str("cp"));
        c.push(String::from_str("-R"));
        c.push(from_path);
        c.push(to_path);
        proof {
            assert(c.deep_view() =~= seq![
                ("cp")@,
                ("-R")@,
                spec_build_path(*from_folder, *relative_path),
                spec_build_path(*to_folder, *relative_path),
            ]);
        }
        c
    };

    Ok(
        SyncPlan {
            tar_name,
            check_source,
            create_tar,
            copy,
            make_target_dirs,
            verify_tar,
            purge_target,
            untar,
            delete_to_tar,
            delete_from_tar,
        },
    )
}

/// Where one sync operation stands: planning output in hand, the phases run
/// from verifying the source, through the confirmation gate, to executing
/// the steps — with early exits when the source is missing or the user
/// declines.
#[derive(Clone, Copy, Debug, PartialEq, Eq, Structural)]
pub enum SyncPhase {
    /// The source-existence check is outstanding.
    Verifying,
    /// The user has not yet answered the confirmation prompt.
    AwaitingConfirmation,
    /// Mutating steps are being issued, in order.
    Executing,
    /// Every step has run.
    Done,
    /// The source does not exist; nothing was mutated.
    Aborted,
    /// The user declined; nothing was mutated.
    Skipped,
}

/// The substring of the existence check's output that marks a missing
/// source.
pub open spec fn spec_missing_marker() -> Seq<char> {
    ("No such")@
}

/// One sync operation in flight: the plan, the force flag, and the phase.
pub struct SyncRun {
    pub plan: SyncPlan,
    pub force: bool,
    pub phase: SyncPhase,
    pub next_step: usize,
}

impl SyncRun {
    /// The run's phase bookkeeping is coherent: steps are only counted while
    /// executing, and the counter stays within the plan.
    pub open spec fn wf(self) -> bool {
        &&& self.next_step <= 8
        &&& self.phase is Executing ==> self.next_step < 8
        &&& self.phase is Verifying ==> self.next_step == 0
        &&& self.phase is AwaitingConfirmation ==> self.next_step == 0
        &&& self.phase is Aborted ==> self.next_step == 0
        &&& self.phase is Skipped ==> self.next_step == 0
    }

    /// Begins a run: the existence check is owed first.
    pub fn start(plan: SyncPlan, force: bool) -> (r: SyncRun)
        ensures
            r.plan == plan,
            r.force == force,
            r.phase == SyncPhase::Verifying,
            r.next_step == 0,
            r.wf(),
    {
        SyncRun { plan, force, phase: SyncPhase::Verifying, next_step: 0 }
    }

    /// Consumes the output of the source-existence check: the operation
    /// aborts when the output carries the missing-source marker, proceeds
    /// straight to execution under force, and awaits confirmation otherwise.
    pub fn observe_check_output(&mut self, output: &str)
        requires
            old(self).phase is Verifying,
            old(self).wf(),
        ensures
            final(self).plan == old(self).plan,
            final(self).force == old(self).force,
            final(self).next_step == 0,
            final(self).wf(),
            final(self).phase == (if contains_seq(output@, spec_missing_marker()) {
                SyncPhase::Aborted
            } else if old(self).force {
                SyncPhase::Executing
            } else {
                SyncPhase::AwaitingConfirmation
            }),
    {
        if contains_str(output, "No such") {
            self.phase = SyncPhase::Aborted;
        } else if self.force {
            self.phase = SyncPhase::Executing;
        } else {
            self.phase = SyncPhase::AwaitingConfirmation;
        }
    }

    /// Consumes the confirmation line: execution proceeds only when the
    /// trimmed input is exactly the accepted answer; anything else skips the
    /// operation without error.
    pub fn observe_confirmation(&mut self, input: &str)
        requires
            old(self).phase is AwaitingConfirmation,
            old(self).wf(),
        ensures
            final(self).plan == old(self).plan,
            final(self).force == old(self).force,
            final(self).next_step == 0,
            final(self).wf(),
            final(self).phase == (if spec_trim(input@) == ("y")@ {
                SyncPhase::Executing
            } else {
                SyncPhase::Skipped
            }),
    {
        if is_confirmation(input) {
            self.phase = SyncPhase::Executing;
        } else {
            self.phase = SyncPhase::Skipped;
        }
    }

    /// The command owed next: the pending step while executing, nothing in
    /// any other phase.
    pub open spec fn spec_next_command(self) -> Option<Seq<Seq<char>>> {
        if self.phase is Executing && self.next_step < 8 {
            Some(self.plan.spec_steps()[self.next_step as int])
        } else {
            None
        }
    }

    /// The command to issue next, if the run is executing.
    pub fn next_command(&self) -> (r: Option<Vec<String>>)
        ensures
            match r {
                Some(c) => self.spec_next_command() == Some(c.deep_view()),
                None => self.spec_next_command() is None,
            },
    {
        match self.phase {
            SyncPhase::Executing => {
                if self.next_step == 0 {
                    Some(clone_args(&self.plan.create_tar))
                } else if self.next_step == 1 {
                    Some(clone_args(&self.plan.copy))
                } else if self.next_step == 2 {
                    Some(clone_args(&self.plan.make_target_dirs))
                } else if self.next_step == 3 {
                    Some(clone_args(&self.plan.verify_tar))
                } else if self.next_step == 4 {
                    Some(clone_args(&self.plan.purge_target))
                } else if self.next_step == 5 {
                    Some(clone_args(&self.plan.untar))
                } else if self.next_step == 6 {
                    Some(clone_args(&self.plan.delete_to_tar))
                } else if self.next_step == 7 {
                    Some(clone_args(&self.plan.delete_from_tar))
                } else {
                    None
                }
            },
            _ => None,
        }
    }

    /// Records that the pending step ran; after the last one the run is
    /// done.
    pub fn step_done(&mut self)
        requires
            old(self).phase is Executing,
            old(self).wf(),
        ensures
            final(self).plan == old(self).plan,
            final(self).force == old(self).force,
            final(self).next_step == old(self).next_step + 1,
            final(self).wf(),
            final(self).phase == (if old(self).next_step == 7 {
                SyncPhase::Done
            } else {
                SyncPhase::Executing
            }),
    {
        self.next_step = self.next_step + 1;
        if self.next_step == 8 {
            self.phase = SyncPhase::Done;
        }
    }
}

/// A run that is not in its executing phase issues no command: an aborted,
/// skipped, or finished operation mutates nothing further.
pub proof fn lemma_no_command_outside_execution(run: SyncRun)
    requires
        !(run.phase is Executing),
    ensures
        run.spec_next_command() is None,
{
}

} // verus!
