use git_version::command::{judge, CommandError, CommandReport, PROGRAM, SUBCOMMAND};
use git_version::text::{concat3, decimal, trim_line_end};

fn exited(status: Option<i32>, stdout: &[u8], stderr: &str) -> CommandReport {
    CommandReport::Exited { status, stdout: stdout.to_vec(), stderr: stderr.to_string() }
}

#[test]
fn the_query_is_git_describe() {
    assert_eq!(PROGRAM, "git");
    assert_eq!(SUBCOMMAND, "describe");
}

#[test]
fn success_strips_one_trailing_line_feed() {
    assert_eq!(
        judge(exited(Some(0), b"v1.2.3-4-gabcdef\n", "")),
        Ok("v1.2.3-4-gabcdef".to_string())
    );
    assert_eq!(judge(exited(Some(0), b"abc123", "")), Ok("abc123".to_string()));
    assert_eq!(judge(exited(Some(0), b"abc\n\n", "")), Ok("abc\n".to_string()));
    assert_eq!(judge(exited(Some(0), b"abc\r\n", "")), Ok("abc\r".to_string()));
    assert_eq!(judge(exited(Some(0), b"", "")), Ok("".to_string()));
    assert_eq!(judge(exited(Some(0), b"\n", "warning")), Ok("".to_string()));
    assert_eq!(judge(exited(Some(0), "vé-1\n".as_bytes(), "")), Ok("vé-1".to_string()));
}

#[test]
fn nonzero_status_fails_even_with_output() {
    assert_eq!(
        judge(exited(Some(128), b"v1.0\n", "fatal: not a git repository")),
        Err(CommandError::Failed {
            status: Some(128),
            stderr: "fatal: not a git repository".to_string(),
        })
    );
    assert_eq!(
        judge(exited(None, b"v1.0\n", "")),
        Err(CommandError::Failed { status: None, stderr: "".to_string() })
    );
    assert_eq!(
        judge(exited(Some(-1), b"", "x")),
        Err(CommandError::Failed { status: Some(-1), stderr: "x".to_string() })
    );
}

#[test]
fn invalid_text_is_a_failure() {
    assert_eq!(judge(exited(Some(0), &[0x76, 0xff, 0x0a], "")), Err(CommandError::InvalidText));
    assert_eq!(judge(exited(Some(0), &[0xc3], "")), Err(CommandError::InvalidText));
}

#[test]
fn a_missing_program_is_told_apart_from_a_failed_one() {
    assert_eq!(judge(CommandReport::Missing), Err(CommandError::Missing));
    assert_eq!(
        judge(CommandReport::Unstarted("permission denied".to_string())),
        Err(CommandError::Unstarted("permission denied".to_string()))
    );
    assert_ne!(
        judge(CommandReport::Missing),
        judge(exited(Some(127), b"", "git: command not found"))
    );
}

#[test]
fn messages_of_command_errors() {
    assert_eq!(CommandError::Missing.message(), "git executable not found");
    assert_eq!(
        CommandError::Unstarted("permission denied".to_string()).message(),
        "git could not be started: permission denied"
    );
    assert_eq!(
        CommandError::Failed { status: Some(128), stderr: "fatal: bad".to_string() }.message(),
        "git describe exited with status 128: fatal: bad"
    );
    assert_eq!(
        CommandError::Failed { status: Some(-7), stderr: "".to_string() }.message(),
        "git describe exited with status -7: "
    );
    assert_eq!(
        CommandError::Failed { status: None, stderr: "killed".to_string() }.message(),
        "git describe was terminated: killed"
    );
    assert_eq!(
        CommandError::InvalidText.message(),
        "git describe printed text that is not valid UTF-8"
    );
}

#[test]
fn decimal_exact_values() {
    assert_eq!(decimal(0), "0");
    assert_eq!(decimal(7), "7");
    assert_eq!(decimal(10), "10");
    assert_eq!(decimal(128), "128");
    assert_eq!(decimal(-1), "-1");
    assert_eq!(decimal(i32::MAX), "2147483647");
    assert_eq!(decimal(i32::MIN), "-2147483648");
}

#[test]
fn concat3_joins_in_order() {
    assert_eq!(concat3("a", "b", "c"), "abc");
    assert_eq!(concat3("", "b", ""), "b");
}

#[test]
fn standard_error_loses_one_trailing_line_feed() {
    assert_eq!(
        judge(exited(Some(128), b"", "fatal: not a git repository\n")),
        Err(CommandError::Failed {
            status: Some(128),
            stderr: "fatal: not a git repository".to_string(),
        })
    );
    assert_eq!(
        judge(exited(Some(1), b"", "a\n\n")),
        Err(CommandError::Failed { status: Some(1), stderr: "a\n".to_string() })
    );
    assert_eq!(trim_line_end("abc\n".to_string()), "abc");
    assert_eq!(trim_line_end("abc".to_string()), "abc");
    assert_eq!(trim_line_end("\n".to_string()), "");
    assert_eq!(trim_line_end("".to_string()), "");
    assert_eq!(trim_line_end("é\n".to_string()), "é");
    assert_eq!(trim_line_end("a\r\n".to_string()), "a\r");
}
