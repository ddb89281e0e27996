//! Installing `ffmpeg` where none is found: through the package manager of
//! the platform where there is one, else by fetching a built binary.
//!
//! The library decides, step by step, what is to be done next; the caller
//! does it and reports how it ended.

use vstd::prelude::*;
use crate::capability::{answers_all, may_say, reports};
use crate::command::{CommandLine, Invocation, Outcome};
use crate::platform::Platform;

verus! {

/// A program that the installation runs.
#[derive(Debug, Clone, PartialEq, Eq)]
pub enum Stage {
    /// Homebrew, found at the path given, installs the package.
    Brew(String),
    /// `winget` is asked for its version, to see whether it is there.
    WingetCheck,
    /// `winget` installs the package.
    WingetInstall,
    /// `apt-get` installs the package, with the rights of the administrator.
    Apt,
}

/// Why the installation gave up.
#[derive(Debug, Clone, PartialEq, Eq)]
pub enum InstallError {
    /// Homebrew could not be started; the text says why.
    BrewNotStarted(String),
    /// Homebrew ran and ended badly; the text is what it wrote to its error
    /// stream.
    BrewFailed(String),
    /// `winget` could not be started; the text says why.
    WingetNotStarted(String),
    /// The platform offers no way to install the package unattended.
    NoInstaller,
}

/// What the installation does next.
#[derive(Debug, Clone, PartialEq, Eq)]
pub enum Step {
    /// Run the program of this stage and report how it ended.
    Run(Stage),
    /// Fetch a built binary.
    Download,
    /// Nothing more: the package is installed.
    Installed,
    /// Nothing more: the installation gave up.
    GaveUp(InstallError),
}

impl InstallError {
    /// The words in which the failure is reported.
    pub open spec fn message_text(self) -> Seq<char> {
        match self {
            InstallError::BrewNotStarted(why) => "Failed to run brew: "@ + why@,
            InstallError::BrewFailed(stderr) => "Homebrew install failed: "@ + stderr@,
            InstallError::WingetNotStarted(why) => "Failed to run winget: "@ + why@,
            InstallError::NoInstaller =>
                "Could not install ffmpeg automatically. Please install it manually using your package manager."@,
        }
    }

    /// The words in which the failure is reported to the user.
    pub fn message(&self) -> (r: String)
        ensures
            r@ == self.message_text(),
    {
        match self {
            InstallError::BrewNotStarted(why) => {
                let mut r = String::from_str("Failed to run brew: ");
                r.append(why.as_str());
                r
            },
            InstallError::BrewFailed(stderr) => {
                let mut r = String::from_str("Homebrew install failed: ");
                r.append(stderr.as_str());
                r
            },
            InstallError::WingetNotStarted(why) => {
                let mut r = String::from_str("Failed to run winget: ");
                r.append(why.as_str());
                r
            },
            InstallError::NoInstaller => String::from_str(
                "Could not install ffmpeg automatically. Please install it manually using your package manager.",
            ),
        }
    }
}

/// The places where the package manager that has to be found before it can
/// be run is looked for, most preferred first: Homebrew on macOS; none on
/// the other platforms.
pub open spec fn manager_texts(p: Platform) -> Seq<Seq<char>> {
    if p is MacOs {
        seq!["/opt/homebrew/bin/brew"@, "/usr/local/bin/brew"@]
    } else {
        Seq::empty()
    }
}

/// The first of `paths` that is in `files`.
pub open spec fn first_present(paths: Seq<Seq<char>>, files: Set<Seq<char>>) -> Option<Seq<char>>
    decreases paths.len(),
{
    if paths.len() == 0 {
        None
    } else if files.contains(paths[0]) {
        Some(paths[0])
    } else {
        first_present(paths.drop_first(), files)
    }
}

/// The command of a stage.
pub open spec fn stage_line(stage: Stage) -> CommandLine {
    match stage {
        Stage::Brew(brew) => CommandLine { program: brew@, args: seq!["install"@, "ffmpeg"@] },
        Stage::WingetCheck => CommandLine {
            program: "cmd"@,
            args: seq!["/C"@, "winget"@, "--version"@],
        },
        Stage::WingetInstall => CommandLine {
            program: "cmd"@,
            args: seq![
                "/C"@,
                "winget"@,
                "install"@,
                "Gyan.FFmpeg"@,
                "-e"@,
                "--silent"@,
                "--accept-package-agreements"@,
                "--accept-source-agreements"@,
            ],
        },
        Stage::Apt => CommandLine {
            program: "pkexec"@,
            args: seq!["apt-get"@, "install"@, "-y"@, "ffmpeg"@],
        },
    }
}

/// How the installation begins on `p`, where the search for the package
/// manager gave `manager`: on macOS with Homebrew if it was found, else with
/// the download; on Windows with the question whether `winget` is there; on
/// Linux with `apt-get`.
pub open spec fn first_step_of(p: Platform, manager: Option<String>) -> Step {
    match p {
        Platform::MacOs => match manager {
            Some(brew) => Step::Run(Stage::Brew(brew)),
            None => Step::Download,
        },
        Platform::Windows => Step::Run(Stage::WingetCheck),
        Platform::Linux => Step::Run(Stage::Apt),
    }
}

/// How the installation goes on after the program of `stage` ended as
/// `outcome` says.
///
/// Homebrew decides: its failure is reported. `winget` is tried: where it is
/// not there, or does not install the package, the binary is fetched; only
/// where the installing run could not be started that is reported. `apt-get`
/// is all there is on Linux: where it does not install the package, by
/// failing or by not starting, the installation gives up.
pub open spec fn next_step_of(stage: Stage, outcome: Outcome) -> Step {
    match stage {
        Stage::Brew(_) => match outcome {
            Outcome::NotStarted(why) => Step::GaveUp(InstallError::BrewNotStarted(why)),
            Outcome::Exited { success, stderr } => if success {
                Step::Installed
            } else {
                Step::GaveUp(InstallError::BrewFailed(stderr))
            },
        },
        Stage::WingetCheck => if outcome.succeeded() {
            Step::Run(Stage::WingetInstall)
        } else {
            Step::Download
        },
        Stage::WingetInstall => match outcome {
            Outcome::NotStarted(why) => Step::GaveUp(InstallError::WingetNotStarted(why)),
            Outcome::Exited { success, .. } => if success {
                Step::Installed
            } else {
                Step::Download
            },
        },
        Stage::Apt => if outcome.succeeded() {
            Step::Installed
        } else {
            Step::GaveUp(InstallError::NoInstaller)
        },
    }
}

/// The stages through which an installation on `p` can go.
pub open spec fn belongs_to(stage: Stage, p: Platform) -> bool {
    match stage {
        Stage::Brew(_) => p is MacOs,
        Stage::WingetCheck => p is Windows,
        Stage::WingetInstall => p is Windows,
        Stage::Apt => p is Linux,
    }
}

/// An installation stays on its platform: it begins with a stage of the
/// platform, and after a stage of the platform comes another one of it.
pub proof fn lemma_stages_stay_on_platform(
    p: Platform,
    manager: Option<String>,
    stage: Stage,
    outcome: Outcome,
)
    ensures
        first_step_of(p, manager) matches Step::Run(first) ==> belongs_to(first, p),
        belongs_to(stage, p) ==> (next_step_of(stage, outcome) matches Step::Run(next)
            ==> belongs_to(next, p)),
{
}

/// On Linux no binary is fetched: the installation ends with `apt-get`.
pub proof fn lemma_linux_never_downloads(manager: Option<String>, stage: Stage, outcome: Outcome)
    ensures
        first_step_of(Platform::Linux, manager) == Step::Run(Stage::Apt),
        belongs_to(stage, Platform::Linux) ==> next_step_of(stage, outcome) !is Download && next_step_of(
            stage,
            outcome,
        ) !is Run,
{
}

/// The places where the package manager of `platform` is looked for.
pub fn manager_paths(platform: Platform) -> (r: Vec<String>)
    ensures
        r.deep_view() == manager_texts(platform),
{
    let mut r: Vec<String> = Vec::new();
    match platform {
        Platform::MacOs => {
            r.push(String::from_str("/opt/homebrew/bin/brew"));
            r.push(String::from_str("/usr/local/bin/brew"));
        },
        _ => {},
    }
    assert(r.deep_view() =~= manager_texts(platform));
    r
}

/// The first of `paths` of which `file_exists` says yes. It is asked about
/// them in their order, and no more once it said yes.
pub fn first_existing<E: Fn(&str) -> bool>(paths: &Vec<String>, file_exists: E) -> (r: Option<
    String,
>)
    requires
        answers_all(file_exists),
    ensures
        match r {
            Some(path) => exists|i: int|
                {
                    &&& 0 <= i < paths.len()
                    &&& path@ == paths.deep_view()[i]
                    &&& may_say(file_exists, paths.deep_view()[i], true)
                    &&& forall|j: int|
                        0 <= j < i ==> may_say(file_exists, #[trigger] paths.deep_view()[j], false)
                },
            None => forall|j: int|
                0 <= j < paths.len() ==> may_say(
                    file_exists,
                    #[trigger] paths.deep_view()[j],
                    false,
                ),
        },
        forall|files: Set<Seq<char>>| #[trigger]
            reports(file_exists, files) ==> r.deep_view() == first_present(paths.deep_view(), files),
{
    let ghost list = paths.deep_view();
    let mut i: usize = 0;
    assert(list.skip(0) =~= list);
    while i < paths.len()
        invariant
            i <= paths.len(),
            answers_all(file_exists),
            list == paths.deep_view(),
            forall|j: int| 0 <= j < i ==> may_say(file_exists, #[trigger] list[j], false),
            forall|files: Set<Seq<char>>| #[trigger]
                reports(file_exists, files) ==> first_present(list, files) == first_present(
                    list.skip(i as int),
                    files,
                ),
        decreases paths.len() - i,
    {
        let path = &paths[i];
        assert(list[i as int] == path@);
        let ghost rest = list.skip(i as int);
        assert(rest.len() > 0 && rest[0] == path@);
        assert(rest.drop_first() =~= list.skip(i + 1));
        if file_exists(path.as_str()) {
            return Some(path.clone());
        }
        i = i + 1;
    }
    assert(list.skip(i as int).len() == 0);
    None
}

/// The command of `stage`.
pub fn stage_command(stage: &Stage) -> (r: Invocation)
    ensures
        r@ == stage_line(*stage),
{
    let mut args: Vec<String> = Vec::new();
    let program = match stage {
        Stage::Brew(brew) => {
            args.push(String::from_str("install"));
            args.push(String::from_str("ffmpeg"));
            brew.clone()
        },
        Stage::WingetCheck => {
            args.push(String::from_str("/C"));
            args.push(String::from_str("winget"));
            args.push(String::from_str("--version"));
            String::from_str("cmd")
        },
        Stage::WingetInstall => {
            args.push(String::from_str("/C"));
            args.push(String::from_str("winget"));
            args.push(String::from_str("install"));
            args.push(String::from_str("Gyan.FFmpeg"));
            args.push(String::from_str("-e"));
            args.push(String::from_str("--silent"));
            args.push(String::from_str("--accept-package-agreements"));
            args.push(String::from_str("--accept-source-agreements"));
            String::from_str("cmd")
        },
        Stage::Apt => {
            args.push(String::from_str("apt-get"));
            args.push(String::from_str("install"));
            args.push(String::from_str("-y"));
            args.push(String::from_str("ffmpeg"));
            String::from_str("pkexec")
        },
    };
    assert(args.deep_view() =~= stage_line(*stage).args);
    Invocation { program, args }
}

/// How the installation begins.
pub fn first_step(platform: Platform, manager: Option<String>) -> (r: Step)
    ensures
        r == first_step_of(platform, manager),
{
    match platform {
        Platform::MacOs => match manager {
            Some(brew) => Step::Run(Stage::Brew(brew)),
            None => Step::Download,
        },
        Platform::Windows => Step::Run(Stage::WingetCheck),
        Platform::Linux => Step::Run(Stage::Apt),
    }
}

/// How the installation goes on after `stage`.
pub fn next_step(stage: Stage, outcome: Outcome) -> (r: Step)
    ensures
        r == next_step_of(stage, outcome),
{
    match stage {
        Stage::Brew(_) => match outcome {
            Outcome::NotStarted(why) => Step::GaveUp(InstallError::BrewNotStarted(why)),
            Outcome::Exited { success, stderr } => if success {
                Step::Installed
            } else {
                Step::GaveUp(InstallError::BrewFailed(stderr))
            },
        },
        Stage::WingetCheck => if outcome.is_success() {
            Step::Run(Stage::WingetInstall)
        } else {
            Step::Download
        },
        Stage::WingetInstall => match outcome {
            Outcome::NotStarted(why) => Step::GaveUp(InstallError::WingetNotStarted(why)),
            Outcome::Exited { success, .. } => if success {
                Step::Installed
            } else {
                Step::Download
            },
        },
        Stage::Apt => if outcome.is_success() {
            Step::Installed
        } else {
            Step::GaveUp(InstallError::NoInstaller)
        },
    }
}

} // verus!
