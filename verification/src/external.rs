//! Programs that the scanner runs.

pub mod nmap;
pub mod nmap_nse;

use crate::duration::{wrapped_millis, Duration};
use crate::error::{outcome, ErrorView, Outcome, OxideScannerError};
use crate::text;
use vstd::prelude::*;

verus! {

/// What a program that ran to its end left behind.
#[derive(Debug, Clone)]
pub struct CommandOutput {
    pub success: bool,
    pub stdout: Vec<u8>,
    pub stderr: Vec<u8>,
}

/// The output of a program as bytes.
#[verifier::ext_equal]
pub struct OutputView {
    pub success: bool,
    pub stdout: Seq<u8>,
    pub stderr: Seq<u8>,
}

impl DeepView for CommandOutput {
    type V = OutputView;

    open spec fn deep_view(&self) -> OutputView {
        OutputView { success: self.success, stdout: self.stdout@, stderr: self.stderr@ }
    }
}

/// How an attempt to run a program ended.
#[derive(Debug, Clone)]
pub enum CommandOutcome {
    /// It took too long.
    TimedOut,
    /// It could not be run, for the given reason.
    Failed(String),
    /// It ran to its end.
    Finished(CommandOutput),
}

/// A program and where it was found.
#[derive(Debug, Clone)]
pub struct BaseTool {
    pub name: &'static str,
    pub binary_path: String,
}

/// A program by the characters of its texts.
#[verifier::ext_equal]
pub struct ToolView {
    pub name: Seq<char>,
    pub binary_path: Seq<char>,
}

impl DeepView for BaseTool {
    type V = ToolView;

    open spec fn deep_view(&self) -> ToolView {
        ToolView { name: self.name@, binary_path: self.binary_path@ }
    }
}

/// The path that a look-up of `name` printed.
pub open spec fn printed_path(name: Seq<char>, printed: Seq<char>) -> core::result::Result<
    Seq<char>,
    ErrorView,
> {
    if text::trimmed(printed).len() == 0 {
        Err(ErrorView::ExternalTool { tool: name, message: "Tool path is empty"@ })
    } else {
        Ok(text::trimmed(printed))
    }
}

/// Where the program `name` is, by the outcome of a look-up with `which`.
pub open spec fn located(
    name: Seq<char>,
    which: core::result::Result<OutputView, Seq<char>>,
) -> core::result::Result<Seq<char>, ErrorView> {
    match which {
        Err(e) => Err(ErrorView::ExternalTool { tool: "which"@, message: e }),
        Ok(output) => if !output.success {
            Err(ErrorView::ExternalTool { tool: name, message: "Tool not found in PATH"@ })
        } else {
            printed_path(name, text::utf8_lossy(output.stdout))
        },
    }
}

/// The outcome of a look-up by its contents.
pub open spec fn which_view(which: core::result::Result<CommandOutput, String>) -> core::result::Result<
    OutputView,
    Seq<char>,
> {
    match which {
        Ok(output) => Ok(output.deep_view()),
        Err(e) => Err(e@),
    }
}

/// The program `name`, if the look-up found it.
pub open spec fn tool(
    name: Seq<char>,
    which: core::result::Result<OutputView, Seq<char>>,
) -> core::result::Result<ToolView, ErrorView> {
    match located(name, which) {
        Ok(path) => Ok(ToolView { name, binary_path: path }),
        Err(e) => Err(e),
    }
}

impl BaseTool {
    /// The program `name`, by the outcome of `which name`.
    pub fn new(name: &'static str, which: &core::result::Result<CommandOutput, String>) -> (r:
        Outcome<Self>)
        ensures
            outcome(r) == tool(name@, which_view(*which)),
    {
        match Self::find_binary(name, which) {
            Ok(binary_path) => Ok(BaseTool { name, binary_path }),
            Err(e) => Err(e),
        }
    }

    /// The path that a look-up printed.
    pub fn path_from(name: &str, printed: &str) -> (r: Outcome<String>)
        ensures
            outcome(r) == printed_path(name@, printed@),
    {
        let path = text::trim(printed);
        if path.as_str().is_empty() {
            return Err(OxideScannerError::external_tool(name, "Tool path is empty"));
        }
        Ok(path)
    }

    /// Where the program is, by the outcome of `which name`.
    pub fn find_binary(name: &str, which: &core::result::Result<CommandOutput, String>) -> (r:
        Outcome<String>)
        ensures
            outcome(r) == located(name@, which_view(*which)),
    {
        match which {
            Err(e) => Err(OxideScannerError::external_tool("which", e.as_str())),
            Ok(output) => {
                if !output.success {
                    return Err(OxideScannerError::external_tool(name, "Tool not found in PATH"));
                }
                let printed = text::decode_lossy(output.stdout.as_slice());
                Self::path_from(name, printed.as_str())
            },
        }
    }

    /// What an attempt to run this program comes to.
    pub fn command_result(&self, ended: CommandOutcome, timeout: Duration) -> (r: Outcome<
        CommandOutput,
    >)
        ensures
            outcome(r) == (match ended {
                CommandOutcome::TimedOut => Err(
                    ErrorView::Timeout { duration_ms: wrapped_millis(timeout.in_nanos()) },
                ),
                CommandOutcome::Failed(e) => Err(
                    ErrorView::ExternalTool { tool: self.name@, message: e@ },
                ),
                CommandOutcome::Finished(output) => Ok(output.deep_view()),
            }),
    {
        match ended {
            CommandOutcome::TimedOut => {
                Err(OxideScannerError::timeout(timeout.as_millis_u64()))
            },
            CommandOutcome::Failed(e) => Err(
                OxideScannerError::external_tool(self.name, e.as_str()),
            ),
            CommandOutcome::Finished(output) => Ok(output),
        }
    }
}

} // verus!
