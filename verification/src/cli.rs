//! The command-line surface as plain data: the selected operation, its
//! target, and the global flags. Argument parsing itself lives with the
//! binary; these are the values it hands over.

use vstd::prelude::*;

verus! {

/// The target of a list operation, with an optional sub-path.
#[derive(Clone, Debug)]
pub struct CmdArgs {
    pub target: String,
    pub relative_path: Option<String>,
}

/// The target of a pull operation, with an optional sub-path.
#[derive(Clone, Debug)]
pub struct PullArgs {
    pub target: String,
    pub relative_path: Option<String>,
}

/// The target of a push operation, with an optional sub-path.
#[derive(Clone, Debug)]
pub struct PushArgs {
    pub target: String,
    pub relative_path: Option<String>,
}

/// The operation selected on the command line.
#[derive(Clone, Debug)]
pub enum CliCmd {
    Ls(CmdArgs),
    Pull(PullArgs),
    Push(PushArgs),
}

/// Everything the command line selects: the operation plus the link and
/// force flags.
#[derive(Clone, Debug)]
pub struct Args {
    pub cmd: CliCmd,
    pub link: bool,
    pub force: bool,
}

} // verus!
