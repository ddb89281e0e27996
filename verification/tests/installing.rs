use remuxer::command::{Invocation, Outcome};
use remuxer::download::{
    archive_name, binary_name, download_url, install_dir, is_binary_entry_name, marks_executable,
};
use remuxer::install::{
    first_existing, first_step, manager_paths, next_step, stage_command, InstallError, Stage, Step,
};
use remuxer::locator::find_ffmpeg_from;
use remuxer::path::join;
use remuxer::platform::Platform;
use std::cell::RefCell;

fn list(paths: &[&str]) -> Vec<String> {
    paths.iter().map(|p| p.to_string()).collect()
}

fn invocation(program: &str, args: &[&str]) -> Invocation {
    Invocation { program: program.to_string(), args: list(args) }
}

fn good() -> Outcome {
    Outcome::Exited { success: true, stderr: String::new() }
}

fn bad(stderr: &str) -> Outcome {
    Outcome::Exited { success: false, stderr: stderr.to_string() }
}

fn not_started(why: &str) -> Outcome {
    Outcome::NotStarted(why.to_string())
}

#[test]
fn homebrew_is_looked_for_on_macos_only() {
    assert_eq!(
        manager_paths(Platform::MacOs),
        list(&["/opt/homebrew/bin/brew", "/usr/local/bin/brew"])
    );
    assert_eq!(manager_paths(Platform::Windows), Vec::<String>::new());
    assert_eq!(manager_paths(Platform::Linux), Vec::<String>::new());
}

#[test]
fn the_first_existing_path_is_taken() {
    let paths = list(&["/a", "/b", "/c"]);
    assert_eq!(first_existing(&paths, |p: &str| p != "/a"), Some(String::from("/b")));
    assert_eq!(first_existing(&paths, |_p: &str| true), Some(String::from("/a")));
    assert_eq!(first_existing(&paths, |p: &str| p == "/c"), Some(String::from("/c")));
    assert_eq!(first_existing(&paths, |_p: &str| false), None);
    assert_eq!(first_existing(&Vec::new(), |_p: &str| true), None);
}

#[test]
fn nothing_is_asked_after_the_first_existing_path() {
    let paths = list(&["/a", "/b", "/c"]);
    let asked = RefCell::new(Vec::new());
    let r = first_existing(&paths, |p: &str| {
        asked.borrow_mut().push(p.to_string());
        p == "/b"
    });
    assert_eq!(r, Some(String::from("/b")));
    assert_eq!(*asked.borrow(), vec!["/a", "/b"]);
}

#[test]
fn commands_of_the_stages() {
    assert_eq!(
        stage_command(&Stage::Brew(String::from("/opt/homebrew/bin/brew"))),
        invocation("/opt/homebrew/bin/brew", &["install", "ffmpeg"])
    );
    assert_eq!(stage_command(&Stage::WingetCheck), invocation("cmd", &["/C", "winget", "--version"]));
    assert_eq!(
        stage_command(&Stage::WingetInstall),
        invocation(
            "cmd",
            &[
                "/C",
                "winget",
                "install",
                "Gyan.FFmpeg",
                "-e",
                "--silent",
                "--accept-package-agreements",
                "--accept-source-agreements"
            ]
        )
    );
    assert_eq!(
        stage_command(&Stage::Apt),
        invocation("pkexec", &["apt-get", "install", "-y", "ffmpeg"])
    );
}

#[test]
fn macos_begins_with_homebrew_or_the_download() {
    assert_eq!(
        first_step(Platform::MacOs, Some(String::from("/usr/local/bin/brew"))),
        Step::Run(Stage::Brew(String::from("/usr/local/bin/brew")))
    );
    assert_eq!(first_step(Platform::MacOs, None), Step::Download);
}

#[test]
fn windows_begins_with_the_question_for_winget() {
    assert_eq!(first_step(Platform::Windows, None), Step::Run(Stage::WingetCheck));
    assert_eq!(
        first_step(Platform::Windows, Some(String::from("/usr/local/bin/brew"))),
        Step::Run(Stage::WingetCheck)
    );
}

#[test]
fn linux_begins_with_apt() {
    assert_eq!(first_step(Platform::Linux, None), Step::Run(Stage::Apt));
    assert_eq!(
        first_step(Platform::Linux, Some(String::from("/usr/local/bin/brew"))),
        Step::Run(Stage::Apt)
    );
}

#[test]
fn homebrew_decides() {
    let brew = || Stage::Brew(String::from("/opt/homebrew/bin/brew"));
    assert_eq!(next_step(brew(), good()), Step::Installed);
    assert_eq!(
        next_step(brew(), bad("No available formula")),
        Step::GaveUp(InstallError::BrewFailed(String::from("No available formula")))
    );
    assert_eq!(
        next_step(brew(), not_started("permission denied")),
        Step::GaveUp(InstallError::BrewNotStarted(String::from("permission denied")))
    );
}

#[test]
fn winget_is_tried_and_the_download_follows() {
    assert_eq!(next_step(Stage::WingetCheck, good()), Step::Run(Stage::WingetInstall));
    assert_eq!(next_step(Stage::WingetCheck, bad("")), Step::Download);
    assert_eq!(next_step(Stage::WingetCheck, not_started("not found")), Step::Download);
    assert_eq!(next_step(Stage::WingetInstall, good()), Step::Installed);
    assert_eq!(next_step(Stage::WingetInstall, bad("no package")), Step::Download);
    assert_eq!(
        next_step(Stage::WingetInstall, not_started("not found")),
        Step::GaveUp(InstallError::WingetNotStarted(String::from("not found")))
    );
}

#[test]
fn apt_is_all_there_is_on_linux() {
    assert_eq!(next_step(Stage::Apt, good()), Step::Installed);
    assert_eq!(next_step(Stage::Apt, bad("E: Unable to locate")), Step::GaveUp(InstallError::NoInstaller));
    assert_eq!(next_step(Stage::Apt, not_started("pkexec")), Step::GaveUp(InstallError::NoInstaller));
}

#[test]
fn failures_in_words() {
    assert_eq!(
        InstallError::BrewNotStarted(String::from("denied")).message(),
        "Failed to run brew: denied"
    );
    assert_eq!(
        InstallError::BrewFailed(String::from("no formula")).message(),
        "Homebrew install failed: no formula"
    );
    assert_eq!(
        InstallError::WingetNotStarted(String::from("denied")).message(),
        "Failed to run winget: denied"
    );
    assert_eq!(
        InstallError::NoInstaller.message(),
        "Could not install ffmpeg automatically. Please install it manually using your package manager."
    );
}

#[test]
fn a_whole_installation_on_each_platform() {
    let run_all = |platform: Platform, exists: &dyn Fn(&str) -> bool, ends: &dyn Fn(&Invocation) -> Outcome| {
        let manager = first_existing(&manager_paths(platform), |p: &str| exists(p));
        let mut step = first_step(platform, manager);
        let mut ran = Vec::new();
        while let Step::Run(stage) = step {
            let command = stage_command(&stage);
            let outcome = ends(&command);
            ran.push(command.program.clone());
            step = next_step(stage, outcome);
        }
        (ran, step)
    };
    let (ran, end) = run_all(Platform::MacOs, &|p| p == "/usr/local/bin/brew", &|_c| good());
    assert_eq!(ran, vec!["/usr/local/bin/brew"]);
    assert_eq!(end, Step::Installed);
    let (ran, end) = run_all(Platform::MacOs, &|_p| false, &|_c| good());
    assert_eq!(ran, Vec::<String>::new());
    assert_eq!(end, Step::Download);
    let (ran, end) = run_all(Platform::Windows, &|_p| false, &|_c| good());
    assert_eq!(ran, vec!["cmd", "cmd"]);
    assert_eq!(end, Step::Installed);
    let (ran, end) = run_all(Platform::Windows, &|_p| false, &|c| {
        if c.args.contains(&String::from("install")) {
            bad("")
        } else {
            good()
        }
    });
    assert_eq!(ran, vec!["cmd", "cmd"]);
    assert_eq!(end, Step::Download);
    let (ran, end) = run_all(Platform::Linux, &|_p| true, &|_c| bad(""));
    assert_eq!(ran, vec!["pkexec"]);
    assert_eq!(end, Step::GaveUp(InstallError::NoInstaller));
}

#[test]
fn archives_for_macos_and_windows() {
    assert_eq!(
        download_url(Platform::MacOs),
        Some("https://evermeet.cx/ffmpeg/getrelease/ffmpeg/zip")
    );
    assert_eq!(
        download_url(Platform::Windows),
        Some("https://www.gyan.dev/ffmpeg/builds/ffmpeg-release-essentials.zip")
    );
    assert_eq!(download_url(Platform::Linux), None);
    assert_eq!(archive_name(), "ffmpeg_temp.zip");
}

#[test]
fn names_of_the_binary() {
    assert_eq!(binary_name(Platform::MacOs), "ffmpeg");
    assert_eq!(binary_name(Platform::Linux), "ffmpeg");
    assert_eq!(binary_name(Platform::Windows), "ffmpeg.exe");
    assert!(marks_executable(Platform::MacOs));
    assert!(!marks_executable(Platform::Windows));
    assert!(!marks_executable(Platform::Linux));
}

#[test]
fn directories_of_the_binary() {
    assert_eq!(install_dir(Platform::MacOs, "/Users/u"), "/Users/u/.local/bin");
    assert_eq!(install_dir(Platform::MacOs, "/Users/u/"), "/Users/u/.local/bin");
    assert_eq!(install_dir(Platform::Linux, "/home/u"), "/home/u/.local/bin");
    assert_eq!(install_dir(Platform::Windows, "C:\\Users\\u"), "C:\\Users\\u\\AppData\\Local\\ffmpeg");
}

#[test]
fn the_binary_is_put_where_it_is_searched() {
    for (platform, home) in [
        (Platform::MacOs, "/Users/u"),
        (Platform::MacOs, "/Users/u/"),
        (Platform::MacOs, ""),
        (Platform::Linux, "/home/u"),
        (Platform::Windows, "C:\\Users\\u"),
        (Platform::Windows, "C:\\Users\\u\\"),
        (Platform::Windows, "C:/Users/u/"),
    ] {
        let written = join(platform, &install_dir(platform, home), binary_name(platform));
        let found = find_ffmpeg_from(
            platform,
            &Some(home.to_string()),
            |p: &str| p == written,
            |p: &str| p == written,
        );
        assert_eq!(found, Some(written));
    }
}

#[test]
fn entries_that_are_the_binary() {
    assert!(is_binary_entry_name(Platform::MacOs, "ffmpeg"));
    assert!(is_binary_entry_name(Platform::MacOs, "bin/ffmpeg"));
    assert!(is_binary_entry_name(Platform::MacOs, "/ffmpeg"));
    assert!(!is_binary_entry_name(Platform::MacOs, "xffmpeg"));
    assert!(!is_binary_entry_name(Platform::MacOs, "ffmpeg/"));
    assert!(!is_binary_entry_name(Platform::MacOs, "ffmpeg.exe"));
    assert!(!is_binary_entry_name(Platform::MacOs, "ffmpe"));
    assert!(!is_binary_entry_name(Platform::MacOs, "fmpeg"));
    assert!(!is_binary_entry_name(Platform::MacOs, ""));
    assert!(!is_binary_entry_name(Platform::MacOs, "doc/ffmpeg.txt"));
    assert!(is_binary_entry_name(Platform::Windows, "ffmpeg.exe"));
    assert!(is_binary_entry_name(Platform::Windows, "ffmpeg-7.1-essentials_build/bin/ffmpeg.exe"));
    assert!(is_binary_entry_name(Platform::Windows, "xffmpeg.exe"));
    assert!(!is_binary_entry_name(Platform::Windows, "ffmpeg"));
    assert!(!is_binary_entry_name(Platform::Windows, "bin/ffprobe.exe"));
    assert!(!is_binary_entry_name(Platform::Windows, "mpeg.exe"));
    assert!(!is_binary_entry_name(Platform::Windows, ""));
}
