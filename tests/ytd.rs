use regex::Regex;
use std::path::PathBuf;
use ytd_rs::job::{ProcessOutput, LOCALE_VALUE, LOCALE_VAR, YOUTUBE_DL_COMMAND};
use ytd_rs::prepare::{first_step, next_step, DirAction, DirEvent};
use ytd_rs::{Arg, YoutubeDL, YoutubeDLError};

fn job_in(dir: &str) -> YoutubeDL {
    YoutubeDL::new(PathBuf::from(dir), vec![Arg::new("--version")], "")
}

fn finished(success: bool, stdout: &[u8], stderr: &[u8]) -> ProcessOutput {
    ProcessOutput {
        success,
        stdout: stdout.to_vec(),
        stderr: stderr.to_vec(),
    }
}

#[test]
fn arg_without_input_renders_flag() {
    assert_eq!(Arg::new("--add-metadata").to_string(), "--add-metadata");
}

#[test]
fn arg_with_input_renders_flag_and_input() {
    let arg = Arg::new_with_arg("--cookie", "/path/to/cookie");
    assert_eq!(arg.to_string(), "--cookie /path/to/cookie");
}

#[test]
fn arg_with_empty_input_keeps_the_space() {
    assert_eq!(Arg::new_with_arg("--output", "").to_string(), "--output ");
}

#[test]
fn command_args_put_flags_then_inputs_then_links() {
    let args = vec![
        Arg::new("--quiet"),
        Arg::new_with_arg("--output", "%(title).90s.%(ext)s"),
        Arg::new("--no-warnings"),
    ];
    let links = vec!["https://a.example/1".to_string(), "https://a.example/2".to_string()];
    let job = YoutubeDL::new_multiple_links(PathBuf::from("/tmp/dl"), args, links);
    assert_eq!(
        job.command_args(),
        vec![
            "--quiet",
            "--output",
            "%(title).90s.%(ext)s",
            "--no-warnings",
            "https://a.example/1",
            "https://a.example/2",
        ]
    );
}

#[test]
fn command_args_without_links_hold_only_arguments() {
    let job = YoutubeDL::new_multiple_links(PathBuf::from("/tmp/dl"), vec![Arg::new("--version")], vec![]);
    assert_eq!(job.command_args(), vec!["--version"]);
}

#[test]
fn command_args_of_empty_job_are_empty() {
    let job = YoutubeDL::new_multiple_links(PathBuf::from("/tmp/dl"), vec![], vec![]);
    assert!(job.command_args().is_empty());
}

#[test]
fn single_link_job_passes_the_link_last() {
    let job = job_in("/tmp/dl");
    assert_eq!(job.command_args(), vec!["--version", ""]);
    let job = YoutubeDL::new(PathBuf::from("/tmp/dl"), vec![], "https://a.example/v");
    assert_eq!(job.command_args(), vec!["https://a.example/v"]);
}

#[test]
fn job_keeps_its_directory() {
    let job = job_in("/srv/media");
    assert_eq!(job.directory(), &PathBuf::from("/srv/media"));
}

#[test]
fn launch_settings() {
    assert_eq!(YOUTUBE_DL_COMMAND, "youtube-dl");
    assert_eq!(LOCALE_VAR, "LC_ALL");
    assert_eq!(LOCALE_VALUE, "en_US.UTF-8");
}

#[test]
fn version_query_reports_stdout() {
    let job = job_in("/srv/media");
    let result = job.download(Ok(finished(true, b"2021.12.17\n", b""))).unwrap();
    let pattern = Regex::new(r"\d{4}\.\d{2}\.\d{2}").unwrap();
    assert!(pattern.is_match(result.output()));
    assert_eq!(result.output(), "2021.12.17\n");
    assert_eq!(result.output_dir(), &PathBuf::from("/srv/media"));
}

#[test]
fn missing_executable_is_a_launch_failure() {
    let job = job_in("/srv/media");
    let launch = std::io::Error::new(std::io::ErrorKind::NotFound, "no such program");
    match job.download(Err(launch)) {
        Err(YoutubeDLError::IOError(e)) => {
            assert_eq!(e.kind(), std::io::ErrorKind::NotFound);
            assert_eq!(e.to_string(), "no such program");
        }
        other => panic!("expected a launch failure, got {:?}", other),
    }
}

#[test]
fn nonzero_exit_reports_stderr() {
    let job = job_in("/srv/media");
    match job.download(Ok(finished(false, b"ignored", b"ERROR: unsupported URL"))) {
        Err(YoutubeDLError::Failure(m)) => assert_eq!(m, "ERROR: unsupported URL"),
        other => panic!("expected a tool failure, got {:?}", other),
    }
}

#[test]
fn success_with_empty_stdout_gives_empty_output() {
    let job = job_in("/srv/media");
    let result = job.download(Ok(finished(true, b"", b"some warning"))).unwrap();
    assert_eq!(result.output(), "");
}

#[test]
fn invalid_utf8_on_stdout_is_an_error() {
    let job = job_in("/srv/media");
    let r = job.download(Ok(finished(true, &[0x66, 0xff, 0x67], b"")));
    assert!(matches!(r, Err(YoutubeDLError::UTF8Error(_))));
}

#[test]
fn invalid_utf8_on_stderr_is_an_error() {
    let job = job_in("/srv/media");
    let r = job.download(Ok(finished(false, b"fine", &[0xc3, 0x28])));
    assert!(matches!(r, Err(YoutubeDLError::UTF8Error(_))));
}

#[test]
fn multibyte_output_is_decoded() {
    let job = job_in("/srv/media");
    let result = job.download(Ok(finished(true, "Caf\u{e9} \u{2713}".as_bytes(), b""))).unwrap();
    assert_eq!(result.output(), "Caf\u{e9} \u{2713}");
}

#[test]
fn report_on_decoded_text() {
    let job = job_in("/srv/media");
    let ok = job.report(true, Ok("done".to_string())).unwrap();
    assert_eq!(ok.output(), "done");
    assert_eq!(ok.output_dir(), &PathBuf::from("/srv/media"));
    match job.report(false, Ok("boom".to_string())) {
        Err(YoutubeDLError::Failure(m)) => assert_eq!(m, "boom"),
        other => panic!("expected a tool failure, got {:?}", other),
    }
    let bad = String::from_utf8(vec![0xff]).unwrap_err();
    assert!(matches!(job.report(true, Err(bad)), Err(YoutubeDLError::UTF8Error(_))));
}

#[test]
fn preparation_starts_by_checking_existence() {
    assert!(matches!(first_step(), DirAction::CheckExists));
}

#[test]
fn missing_directory_is_created_then_checked() {
    assert!(matches!(next_step(DirEvent::Exists(false)), DirAction::CreateAll));
    assert!(matches!(next_step(DirEvent::Created(Ok(()))), DirAction::CheckIsDir));
    assert!(matches!(next_step(DirEvent::IsDir(true)), DirAction::Canonicalize));
}

#[test]
fn existing_directory_is_checked_without_creating() {
    assert!(matches!(next_step(DirEvent::Exists(true)), DirAction::CheckIsDir));
}

#[test]
fn regular_file_is_rejected() {
    match next_step(DirEvent::IsDir(false)) {
        DirAction::Done(Err(YoutubeDLError::IOError(e))) => {
            assert_eq!(e.kind(), std::io::ErrorKind::Other);
            assert_eq!(e.to_string(), "path is not a directory");
        }
        other => panic!("expected a directory error, got {:?}", other),
    }
}

#[test]
fn creation_failure_ends_preparation() {
    let denied = std::io::Error::new(std::io::ErrorKind::PermissionDenied, "denied");
    match next_step(DirEvent::Created(Err(denied))) {
        DirAction::Done(Err(YoutubeDLError::IOError(e))) => {
            assert_eq!(e.kind(), std::io::ErrorKind::PermissionDenied)
        }
        other => panic!("expected a creation error, got {:?}", other),
    }
}

#[test]
fn canonical_path_ends_preparation() {
    let canonical = PathBuf::from("/home/user/videos");
    match next_step(DirEvent::Canonical(Ok(canonical.clone()))) {
        DirAction::Done(Ok(p)) => assert_eq!(p, canonical),
        other => panic!("expected the canonical path, got {:?}", other),
    }
    let gone = std::io::Error::new(std::io::ErrorKind::NotFound, "gone");
    assert!(matches!(
        next_step(DirEvent::Canonical(Err(gone))),
        DirAction::Done(Err(YoutubeDLError::IOError(_)))
    ));
}
