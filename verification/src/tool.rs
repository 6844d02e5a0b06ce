//! The vendor build tool as the controllers see it: what it can be asked to
//! do, the command line that asks for it, and how an invocation can end.

use vstd::prelude::*;
use vstd::string::*;

verus! {

/// One thing the build tool can be asked to do.
#[derive(Clone, Copy, Debug, PartialEq, Eq, Structural)]
pub enum ToolAction {
    /// Compile the project.
    Build,
    /// Select the target chip, which wipes the build state and reconfigures
    /// the project.
    SetTarget,
    /// Write the built image to the attached board.
    Flash,
}

/// How the tool's process ended.
#[derive(Clone, Copy, Debug, PartialEq, Eq)]
pub struct ExitOutcome {
    /// Whether the process reported success.
    pub success: bool,
    /// The exit code, where the process ended with one.
    pub code: Option<i32>,
}

/// What the driver reports after it was asked to run the tool.
#[derive(Clone, Copy, Debug, PartialEq, Eq)]
pub enum ToolEvent {
    /// The process ran and ended.
    Exited(ExitOutcome),
    /// The process could not be started.
    LaunchFailed,
}

impl ToolEvent {
    /// The tool ran and reported success.
    pub open spec fn succeeded(self) -> bool {
        self matches ToolEvent::Exited(outcome) && outcome.success
    }

    /// The tool ran and reported failure.
    pub open spec fn failed(self) -> bool {
        self matches ToolEvent::Exited(outcome) && !outcome.success
    }
}

impl ToolAction {
    /// The words that `idf.py` takes for this action on the board `board`.
    pub open spec fn arguments_for(self, board: Seq<char>) -> Seq<char> {
        match self {
            ToolAction::Build => "build"@,
            ToolAction::SetTarget => "set-target "@ + board,
            ToolAction::Flash => "flash"@,
        }
    }

    /// Returns the words that `idf.py` takes for this action. Only
    /// `SetTarget` names the board.
    pub fn arguments(self, board: &str) -> (words: String)
        ensures
            words@ == self.arguments_for(board@),
    {
        match self {
            ToolAction::Build => String::from_str("build"),
            ToolAction::SetTarget => String::from_str("set-target ").concat(board),
            ToolAction::Flash => String::from_str("flash"),
        }
    }
}

/// The shell command that loads the toolchain's environment from
/// `export_script` and then runs `idf.py` on `project_dir` with `arguments`.
pub open spec fn shell_command_for(
    export_script: Seq<char>,
    project_dir: Seq<char>,
    arguments: Seq<char>,
) -> Seq<char> {
    ". "@ + export_script + " && idf.py -C "@ + project_dir + " "@ + arguments
}

/// Builds the line handed to `bash -c`: source the export script, then run
/// `idf.py -C <project_dir> <arguments>`.
pub fn shell_command(export_script: &str, project_dir: &str, arguments: &str) -> (line: String)
    ensures
        line@ == shell_command_for(export_script@, project_dir@, arguments@),
{
    String::from_str(". ").concat(export_script).concat(" && idf.py -C ").concat(
        project_dir,
    ).concat(" ").concat(arguments)
}

} // verus!
