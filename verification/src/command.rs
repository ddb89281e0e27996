//! The programs that the application starts and what their endings mean.
//!
//! The library starts nothing. It says which program is to be started with
//! which arguments, and reads the ending that the caller reports back.

use vstd::prelude::*;
use crate::path::{parent, parent_of};
use crate::platform::Platform;

verus! {

/// A program and the arguments it is started with, as text.
pub struct CommandLine {
    pub program: Seq<char>,
    pub args: Seq<Seq<char>>,
}

/// A program to start, with its arguments in order.
#[derive(Debug, Clone, PartialEq, Eq)]
pub struct Invocation {
    pub program: String,
    pub args: Vec<String>,
}

impl View for Invocation {
    type V = CommandLine;

    open spec fn view(&self) -> CommandLine {
        CommandLine { program: self.program@, args: self.args.deep_view() }
    }
}

/// How a started program ended.
#[derive(Debug, Clone, PartialEq, Eq)]
pub enum Outcome {
    /// The program could not be started; the text says why.
    NotStarted(String),
    /// The program ran and ended, well or not, and wrote `stderr` to its
    /// error stream.
    Exited { success: bool, stderr: String },
}

impl Outcome {
    /// The program ran and ended well.
    pub open spec fn succeeded(self) -> bool {
        self matches Outcome::Exited { success, .. } && success
    }

    /// Whether the program ran and ended well. A program that could not be
    /// started counts as one that ended badly.
    pub fn is_success(&self) -> (r: bool)
        ensures
            r == self.succeeded(),
    {
        match self {
            Outcome::Exited { success, .. } => *success,
            Outcome::NotStarted(_) => false,
        }
    }
}

/// Why a conversion gave no file.
#[derive(Debug, Clone, PartialEq, Eq)]
pub enum ConvertError {
    /// No usable `ffmpeg` was found.
    ToolMissing,
    /// `ffmpeg` could not be started; the text says why.
    NotStarted(String),
    /// `ffmpeg` ran and ended badly; the text is what it wrote to its error
    /// stream.
    Failed(String),
}

impl ConvertError {
    /// The words in which the failure is reported.
    pub open spec fn message_text(self) -> Seq<char> {
        match self {
            ConvertError::ToolMissing => "ffmpeg not found"@,
            ConvertError::NotStarted(why) => "Failed to run ffmpeg: "@ + why@,
            ConvertError::Failed(stderr) => "ffmpeg failed: "@ + stderr@,
        }
    }

    /// The words in which the failure is reported to the user.
    pub fn message(&self) -> (r: String)
        ensures
            r@ == self.message_text(),
    {
        match self {
            ConvertError::ToolMissing => String::from_str("ffmpeg not found"),
            ConvertError::NotStarted(why) => {
                let mut r = String::from_str("Failed to run ffmpeg: ");
                r.append(why.as_str());
                r
            },
            ConvertError::Failed(stderr) => {
                let mut r = String::from_str("ffmpeg failed: ");
                r.append(stderr.as_str());
                r
            },
        }
    }
}

/// The command that asks the program at `path` for its version. On Windows
/// it is handed to the command interpreter.
pub open spec fn probe_line(p: Platform, path: Seq<char>) -> CommandLine {
    if p is Windows {
        CommandLine { program: "cmd"@, args: seq!["/C"@, path, "-version"@] }
    } else {
        CommandLine { program: path, args: seq!["-version"@] }
    }
}

/// The command that copies the streams of `input` unchanged into the file
/// `output`, replacing it if it is there. On Windows it is handed to the
/// command interpreter.
pub open spec fn conversion_line(
    p: Platform,
    ffmpeg: Seq<char>,
    input: Seq<char>,
    output: Seq<char>,
) -> CommandLine {
    if p is Windows {
        CommandLine {
            program: "cmd"@,
            args: seq!["/C"@, ffmpeg, "-i"@, input, "-codec"@, "copy"@, "-y"@, output],
        }
    } else {
        CommandLine { program: ffmpeg, args: seq!["-i"@, input, "-codec"@, "copy"@, "-y"@, output] }
    }
}

/// The command that shows the file at `path` in the file browser of the
/// system. On Linux the directory of the file is opened, or `path` itself
/// where it has no directory.
pub open spec fn reveal_line(p: Platform, path: Seq<char>) -> CommandLine {
    match p {
        Platform::MacOs => CommandLine { program: "open"@, args: seq!["-R"@, path] },
        Platform::Windows => CommandLine { program: "explorer"@, args: seq!["/select,"@, path] },
        Platform::Linux => CommandLine {
            program: "xdg-open"@,
            args: seq![
                match parent_of(p, path) {
                    Some(dir) => dir,
                    None => path,
                },
            ],
        },
    }
}

/// The words in which it is reported that the file browser could not be
/// started, for the reason `why`.
pub open spec fn reveal_failure_text(p: Platform, why: Seq<char>) -> Seq<char> {
    match p {
        Platform::MacOs => "Failed to open Finder: "@ + why,
        Platform::Windows => "Failed to open Explorer: "@ + why,
        Platform::Linux => "Failed to open file manager: "@ + why,
    }
}

/// What a conversion that was to write `output` gives, once `ffmpeg` ended
/// as `outcome` says: the path of the file, or the failure.
pub open spec fn conversion_outcome(output: Seq<char>, outcome: Outcome) -> Result<
    Seq<char>,
    ConvertError,
> {
    match outcome {
        Outcome::NotStarted(why) => Err(ConvertError::NotStarted(why)),
        Outcome::Exited { success, stderr } => if success {
            Ok(output)
        } else {
            Err(ConvertError::Failed(stderr))
        },
    }
}

/// The command that asks the program at `path` for its version.
pub fn probe_command(platform: Platform, path: &str) -> (r: Invocation)
    ensures
        r@ == probe_line(platform, path@),
{
    let mut args: Vec<String> = Vec::new();
    let program = match platform {
        Platform::Windows => {
            args.push(String::from_str("/C"));
            args.push(String::from_str(path));
            String::from_str("cmd")
        },
        _ => String::from_str(path),
    };
    args.push(String::from_str("-version"));
    assert(args.deep_view() =~= probe_line(platform, path@).args);
    Invocation { program, args }
}

/// The command that remuxes `input` into `output` with the binary `ffmpeg`.
pub fn conversion_command(platform: Platform, ffmpeg: &str, input: &str, output: &str) -> (r:
    Invocation)
    ensures
        r@ == conversion_line(platform, ffmpeg@, input@, output@),
{
    let mut args: Vec<String> = Vec::new();
    let program = match platform {
        Platform::Windows => {
            args.push(String::from_str("/C"));
            args.push(String::from_str(ffmpeg));
            String::from_str("cmd")
        },
        _ => String::from_str(ffmpeg),
    };
    args.push(String::from_str("-i"));
    args.push(String::from_str(input));
    args.push(String::from_str("-codec"));
    args.push(String::from_str("copy"));
    args.push(String::from_str("-y"));
    args.push(String::from_str(output));
    assert(args.deep_view() =~= conversion_line(platform, ffmpeg@, input@, output@).args);
    Invocation { program, args }
}

/// The command that shows the file at `path` in the file browser.
pub fn reveal_command(platform: Platform, path: &str) -> (r: Invocation)
    ensures
        r@ == reveal_line(platform, path@),
{
    let mut args: Vec<String> = Vec::new();
    let program = match platform {
        Platform::MacOs => {
            args.push(String::from_str("-R"));
            args.push(String::from_str(path));
            String::from_str("open")
        },
        Platform::Windows => {
            args.push(String::from_str("/select,"));
            args.push(String::from_str(path));
            String::from_str("explorer")
        },
        Platform::Linux => {
            let shown = match parent(platform, path) {
                Some(dir) => dir,
                None => String::from_str(path),
            };
            args.push(shown);
            String::from_str("xdg-open")
        },
    };
    assert(args.deep_view() =~= reveal_line(platform, path@).args);
    Invocation { program, args }
}

/// The words in which it is reported that the file browser could not be
/// started.
pub fn reveal_failure(platform: Platform, why: &str) -> (r: String)
    ensures
        r@ == reveal_failure_text(platform, why@),
{
    let mut r = match platform {
        Platform::MacOs => String::from_str("Failed to open Finder: "),
        Platform::Windows => String::from_str("Failed to open Explorer: "),
        Platform::Linux => String::from_str("Failed to open file manager: "),
    };
    r.append(why);
    r
}

/// Reads the ending of the conversion that was to write `output`.
pub fn conversion_result(output: String, outcome: Outcome) -> (r: Result<String, ConvertError>)
    ensures
        match r {
            Ok(path) => conversion_outcome(output@, outcome) == Ok::<Seq<char>, ConvertError>(
                path@,
            ),
            Err(e) => conversion_outcome(output@, outcome) == Err::<Seq<char>, ConvertError>(e),
        },
{
    match outcome {
        Outcome::NotStarted(why) => Err(ConvertError::NotStarted(why)),
        Outcome::Exited { success, stderr } => if success {
            Ok(output)
        } else {
            Err(ConvertError::Failed(stderr))
        },
    }
}

} // verus!
