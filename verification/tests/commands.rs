use remuxer::command::{
    conversion_command, conversion_result, probe_command, reveal_command, reveal_failure,
    ConvertError, Invocation, Outcome,
};
use remuxer::platform::Platform;

fn invocation(program: &str, args: &[&str]) -> Invocation {
    Invocation {
        program: program.to_string(),
        args: args.iter().map(|a| a.to_string()).collect(),
    }
}

#[test]
fn version_is_asked_directly_on_unix() {
    assert_eq!(
        probe_command(Platform::Linux, "/usr/bin/ffmpeg"),
        invocation("/usr/bin/ffmpeg", &["-version"])
    );
    assert_eq!(
        probe_command(Platform::MacOs, "/opt/homebrew/bin/ffmpeg"),
        invocation("/opt/homebrew/bin/ffmpeg", &["-version"])
    );
}

#[test]
fn version_is_asked_through_the_interpreter_on_windows() {
    assert_eq!(
        probe_command(Platform::Windows, "C:\\ffmpeg\\bin\\ffmpeg.exe"),
        invocation("cmd", &["/C", "C:\\ffmpeg\\bin\\ffmpeg.exe", "-version"])
    );
    assert_eq!(probe_command(Platform::Windows, "ffmpeg"), invocation("cmd", &["/C", "ffmpeg", "-version"]));
}

#[test]
fn conversion_copies_the_streams() {
    assert_eq!(
        conversion_command(Platform::Linux, "/usr/bin/ffmpeg", "/tmp/video.mov", "/tmp/video.mp4"),
        invocation(
            "/usr/bin/ffmpeg",
            &["-i", "/tmp/video.mov", "-codec", "copy", "-y", "/tmp/video.mp4"]
        )
    );
    assert_eq!(
        conversion_command(Platform::MacOs, "/usr/bin/ffmpeg", "a b.mkv", "a b.mp4"),
        invocation("/usr/bin/ffmpeg", &["-i", "a b.mkv", "-codec", "copy", "-y", "a b.mp4"])
    );
    assert_eq!(
        conversion_command(Platform::Windows, "ffmpeg", "C:\\v\\in.mov", "C:\\v\\in.mp4"),
        invocation(
            "cmd",
            &["/C", "ffmpeg", "-i", "C:\\v\\in.mov", "-codec", "copy", "-y", "C:\\v\\in.mp4"]
        )
    );
}

#[test]
fn file_is_shown_in_the_browser_of_the_platform() {
    assert_eq!(
        reveal_command(Platform::MacOs, "/Users/u/video.mp4"),
        invocation("open", &["-R", "/Users/u/video.mp4"])
    );
    assert_eq!(
        reveal_command(Platform::Windows, "C:\\Users\\u\\video.mp4"),
        invocation("explorer", &["/select,", "C:\\Users\\u\\video.mp4"])
    );
    assert_eq!(
        reveal_command(Platform::Linux, "/home/u/video.mp4"),
        invocation("xdg-open", &["/home/u"])
    );
}

#[test]
fn on_linux_the_directory_is_opened() {
    assert_eq!(reveal_command(Platform::Linux, "/video.mp4"), invocation("xdg-open", &["/"]));
    assert_eq!(reveal_command(Platform::Linux, "video.mp4"), invocation("xdg-open", &[""]));
    assert_eq!(reveal_command(Platform::Linux, "/"), invocation("xdg-open", &["/"]));
    assert_eq!(reveal_command(Platform::Linux, ""), invocation("xdg-open", &[""]));
    assert_eq!(reveal_command(Platform::Linux, "/home/u/dir/"), invocation("xdg-open", &["/home/u"]));
}

#[test]
fn a_good_ending_gives_the_output_path() {
    let outcome = Outcome::Exited { success: true, stderr: String::from("frame=1") };
    assert_eq!(
        conversion_result(String::from("/tmp/video.mp4"), outcome),
        Ok(String::from("/tmp/video.mp4"))
    );
}

#[test]
fn a_bad_ending_gives_the_error_stream() {
    let outcome = Outcome::Exited { success: false, stderr: String::from("Invalid data") };
    let r = conversion_result(String::from("/tmp/video.mp4"), outcome);
    assert_eq!(r, Err(ConvertError::Failed(String::from("Invalid data"))));
    assert_eq!(r.unwrap_err().message(), "ffmpeg failed: Invalid data");
}

#[test]
fn a_program_that_did_not_start_gives_the_reason() {
    let outcome = Outcome::NotStarted(String::from("No such file or directory (os error 2)"));
    let r = conversion_result(String::from("/tmp/video.mp4"), outcome);
    assert_eq!(
        r,
        Err(ConvertError::NotStarted(String::from("No such file or directory (os error 2)")))
    );
    assert_eq!(
        r.unwrap_err().message(),
        "Failed to run ffmpeg: No such file or directory (os error 2)"
    );
}

#[test]
fn a_missing_tool_is_reported() {
    assert_eq!(ConvertError::ToolMissing.message(), "ffmpeg not found");
}

#[test]
fn only_a_program_that_ran_and_ended_well_succeeded() {
    assert!(Outcome::Exited { success: true, stderr: String::new() }.is_success());
    assert!(Outcome::Exited { success: true, stderr: String::from("warning") }.is_success());
    assert!(!Outcome::Exited { success: false, stderr: String::new() }.is_success());
    assert!(!Outcome::NotStarted(String::from("not found")).is_success());
}

#[test]
fn a_browser_that_did_not_start_is_reported() {
    assert_eq!(reveal_failure(Platform::MacOs, "denied"), "Failed to open Finder: denied");
    assert_eq!(reveal_failure(Platform::Windows, "denied"), "Failed to open Explorer: denied");
    assert_eq!(reveal_failure(Platform::Linux, "denied"), "Failed to open file manager: denied");
}
