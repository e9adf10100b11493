//! The run's decisions: gating startup on the clipboard helper, the editor
//! command line, what each failure reports, and the clipboard publication
//! that follows the terminal run.

use vstd::prelude::*;
use crate::scratch::TempFile;

verus! {

/// The failures that end the run with a diagnostic.
#[derive(Clone, Copy, Debug, PartialEq, Eq, Structural)]
pub enum FlowError {
    /// The clipboard helper is not on the search path.
    HelperMissing,
    /// The terminal template cannot be resolved.
    TemplateUnresolvable,
    /// The terminal process could not be spawned.
    TerminalSpawnFailed,
}

/// The process exit status that every failure maps to.
pub fn exit_code(e: &FlowError) -> (r: u8)
    ensures
        r == 1,
{
    match e {
        FlowError::HelperMissing => 1,
        FlowError::TemplateUnresolvable => 1,
        FlowError::TerminalSpawnFailed => 1,
    }
}

/// The name of the clipboard helper program.
pub fn clipboard_helper() -> (r: &'static str)
    ensures
        r@ == "xclip"@,
{
    "xclip"
}

/// Startup gate: the run goes on only where the search-path variable is set
/// and some of its directories holds the clipboard helper.
pub fn helper_gate(path_var_set: bool, helper_on_path: bool) -> (r: Result<(), FlowError>)
    ensures
        r is Ok <==> path_var_set && helper_on_path,
        r matches Err(e) ==> e == FlowError::HelperMissing,
{
    if path_var_set && helper_on_path {
        Ok(())
    } else {
        Err(FlowError::HelperMissing)
    }
}

/// The editor invocation for the scratch file: the editor, the directive that
/// starts it in insert mode at the end, and the file path.
pub fn editor_command(path: &str) -> (r: String)
    ensures
        r@ == "vim +star "@ + path@,
{
    let mut s = "vim +star ".to_owned();
    s.append(path);
    s
}

/// The argument list handed to the clipboard helper: strip a trailing
/// newline, use the clipboard selection, and read the scratch file.
pub fn clipboard_args(file: &TempFile) -> (r: Vec<String>)
    ensures
        r@.len() == 4,
        r@[0]@ == "-r"@,
        r@[1]@ == "-selection"@,
        r@[2]@ == "c"@,
        r@[3]@ == file.path@,
{
    let mut v: Vec<String> = Vec::new();
    v.push("-r".to_owned());
    v.push("-selection".to_owned());
    v.push("c".to_owned());
    v.push(file.path.clone());
    v
}

/// How the synchronous terminal run ended: spawned and finished with some
/// exit status, or never spawned at all.
#[derive(Clone, Copy, Debug, PartialEq, Eq, Structural)]
pub enum TerminalResult {
    Spawned(i32),
    SpawnFailed,
}

/// Clipboard publication follows every completed terminal run, whatever its
/// exit status: only a terminal that could not be spawned at all stops it,
/// and that failure ends the run with a diagnostic.
pub fn after_terminal(t: &TerminalResult, file: &TempFile) -> (r: Result<Vec<String>, FlowError>)
    ensures
        match t {
            TerminalResult::Spawned(_) => r matches Ok(v) && v@.len() == 4 && v@[0]@ == "-r"@
                && v@[1]@ == "-selection"@ && v@[2]@ == "c"@ && v@[3]@ == file.path@,
            TerminalResult::SpawnFailed => r matches Err(e) && e
                == FlowError::TerminalSpawnFailed,
        },
{
    match t {
        TerminalResult::Spawned(_) => Ok(clipboard_args(file)),
        TerminalResult::SpawnFailed => Err(FlowError::TerminalSpawnFailed),
    }
}

/// The diagnostic lines printed for a failure, remediation hints included.
pub fn message_lines(e: &FlowError) -> (r: Vec<String>)
    ensures
        match e {
            FlowError::HelperMissing => r@.len() == 1 && r@[0]@
                == "xclip not found in path, please install"@,
            FlowError::TemplateUnresolvable => r@.len() == 4 && r@[0]@
                == "Failed to parse shell from environment"@ && r@[1]@
                == "\tSet VIM_ANYWHERE_TERM to your preferred terminal"@ && r@[2]@
                == "\tUse %s in place of the vim command to execute"@ && r@[3]@
                == "\tEx. 'terminator -e \"%s\"'"@,
            FlowError::TerminalSpawnFailed => r@.len() == 4 && r@[0]@ == "Failed to spawn shell"@
                && r@[1]@ == "\tSet VIM_ANYWHERE_TERM to your preferred terminal"@ && r@[2]@
                == "\tUse %s in place of the vim command to execute"@ && r@[3]@
                == "\tEx. 'terminator -e \"%s\"'"@,
        },
{
    let mut v: Vec<String> = Vec::new();
    match e {
        FlowError::HelperMissing => {
            v.push("xclip not found in path, please install".to_owned());
        },
        FlowError::TemplateUnresolvable => {
            v.push("Failed to parse shell from environment".to_owned());
            v.push("\tSet VIM_ANYWHERE_TERM to your preferred terminal".to_owned());
            v.push("\tUse %s in place of the vim command to execute".to_owned());
            v.push("\tEx. 'terminator -e \"%s\"'".to_owned());
        },
        FlowError::TerminalSpawnFailed => {
            v.push("Failed to spawn shell".to_owned());
            v.push("\tSet VIM_ANYWHERE_TERM to your preferred terminal".to_owned());
            v.push("\tUse %s in place of the vim command to execute".to_owned());
            v.push("\tEx. 'terminator -e \"%s\"'".to_owned());
        },
    }
    v
}

} // verus!
