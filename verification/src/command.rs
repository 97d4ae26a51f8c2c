//! The command runner's judgement: what the run of `git describe` means.
//!
//! The caller starts the program named [`PROGRAM`] with [`SUBCOMMAND`] and
//! the configured arguments in the repository root, and reports what
//! happened; the crate turns the report into the described version or into
//! the reason why there is none.

use crate::text::{decimal, spec_decimal, spec_trim_line_end, trim_line_end};
use vstd::prelude::*;
use vstd::utf8::{decode_utf8, valid_utf8};

verus! {

/// The program that is asked for the version.
pub const PROGRAM: &'static str = "git";

/// Its subcommand; the configured arguments follow it.
pub const SUBCOMMAND: &'static str = "describe";

/// What the caller saw when it ran the command.
#[derive(Clone, Debug, PartialEq, Eq)]
pub enum CommandReport {
    /// The program was not found.
    Missing,
    /// The program could not be started for another reason, in words.
    Unstarted(String),
    /// The program ran and ended: its exit status, if it has one, all of
    /// its standard output and the text of its standard error.
    Exited { status: Option<i32>, stdout: Vec<u8>, stderr: String },
}

/// Why the command gave no version.
#[derive(Clone, Debug, PartialEq, Eq)]
pub enum CommandError {
    /// The program was not found.
    Missing,
    /// The program could not be started for another reason, in words.
    Unstarted(String),
    /// The program ran and did not exit with status zero; what it wrote
    /// to standard error, without one trailing line feed.
    Failed { status: Option<i32>, stderr: String },
    /// The program succeeded, but its output is not valid UTF-8.
    InvalidText,
}

/// The mathematical content of a [`CommandReport`].
pub enum CommandReportView {
    Missing,
    Unstarted(Seq<char>),
    Exited { status: Option<i32>, stdout: Seq<u8>, stderr: Seq<char> },
}

/// The mathematical content of a [`CommandError`].
pub enum CommandErrorView {
    Missing,
    Unstarted(Seq<char>),
    Failed { status: Option<i32>, stderr: Seq<char> },
    InvalidText,
}

impl View for CommandReport {
    type V = CommandReportView;

    open spec fn view(&self) -> CommandReportView {
        match self {
            CommandReport::Missing => CommandReportView::Missing,
            CommandReport::Unstarted(reason) => CommandReportView::Unstarted(reason@),
            CommandReport::Exited { status, stdout, stderr } => CommandReportView::Exited {
                status: *status,
                stdout: stdout@,
                stderr: stderr@,
            },
        }
    }
}

impl View for CommandError {
    type V = CommandErrorView;

    open spec fn view(&self) -> CommandErrorView {
        match self {
            CommandError::Missing => CommandErrorView::Missing,
            CommandError::Unstarted(reason) => CommandErrorView::Unstarted(reason@),
            CommandError::Failed { status, stderr } => CommandErrorView::Failed {
                status: *status,
                stderr: stderr@,
            },
            CommandError::InvalidText => CommandErrorView::InvalidText,
        }
    }
}

/// `bytes` without one line feed at its end, if it ends in one.
pub open spec fn spec_trim_bytes(bytes: Seq<u8>) -> Seq<u8> {
    if bytes.len() > 0 && bytes.last() == 10u8 {
        bytes.drop_last()
    } else {
        bytes
    }
}

/// What a report means. Only exit status zero is a success, whatever was
/// printed; a success gives the output without one trailing line feed,
/// which must be valid UTF-8. A failure carries the exit status and the
/// standard error without one trailing line feed.
pub open spec fn spec_judge(report: CommandReportView) -> Result<Seq<char>, CommandErrorView> {
    match report {
        CommandReportView::Missing => Err(CommandErrorView::Missing),
        CommandReportView::Unstarted(reason) => Err(CommandErrorView::Unstarted(reason)),
        CommandReportView::Exited { status, stdout, stderr } => if status != Some(0i32) {
            Err(CommandErrorView::Failed { status, stderr: spec_trim_line_end(stderr) })
        } else if valid_utf8(spec_trim_bytes(stdout)) {
            Ok(decode_utf8(spec_trim_bytes(stdout)))
        } else {
            Err(CommandErrorView::InvalidText)
        },
    }
}

/// The views of a judgement's two outcomes.
pub open spec fn judgement_view(judgement: Result<String, CommandError>) -> Result<
    Seq<char>,
    CommandErrorView,
> {
    match judgement {
        Ok(version) => Ok(version@),
        Err(error) => Err(error@),
    }
}

impl CommandErrorView {
    /// The reason in words, for a diagnostic.
    pub open spec fn message(self) -> Seq<char> {
        match self {
            CommandErrorView::Missing => "git executable not found"@,
            CommandErrorView::Unstarted(reason) => "git could not be started: "@ + reason,
            CommandErrorView::Failed { status: Some(code), stderr } => "git describe exited with status "@
                + spec_decimal(code as int) + ": "@ + stderr,
            CommandErrorView::Failed { status: None, stderr } => "git describe was terminated: "@
                + stderr,
            CommandErrorView::InvalidText => "git describe printed text that is not valid UTF-8"@,
        }
    }
}

/// `std::string::FromUtf8Error`, the error of `String::from_utf8`, carried
/// through unread.
#[verifier::external_type_specification]
#[verifier::external_body]
pub struct ExFromUtf8Error(std::string::FromUtf8Error);

/// Calls `String::from_utf8` on `bytes`. The contract claims what its
/// documentation says: the call succeeds exactly on valid UTF-8, and the
/// string then holds the characters that the bytes encode.
#[verifier::external_body]
fn text_of(bytes: Vec<u8>) -> (r: Result<String, std::string::FromUtf8Error>)
    ensures
        match r {
            Ok(text) => valid_utf8(bytes@) && text@ == decode_utf8(bytes@),
            Err(_) => !valid_utf8(bytes@),
        },
{
    String::from_utf8(bytes)
}

/// Judges a report of the command's run.
///
/// Returns the described version exactly when the program exited with
/// status zero and its output, without one trailing line feed, is valid
/// UTF-8; otherwise the error that [`spec_judge`] names.
pub fn judge(report: CommandReport) -> (judgement: Result<String, CommandError>)
    ensures
        judgement_view(judgement) == spec_judge(report@),
{
    match report {
        CommandReport::Missing => Err(CommandError::Missing),
        CommandReport::Unstarted(reason) => Err(CommandError::Unstarted(reason)),
        CommandReport::Exited { status, stdout, stderr } => {
            let succeeded = match status {
                Some(code) => code == 0,
                None => false,
            };
            if !succeeded {
                return Err(CommandError::Failed { status, stderr: trim_line_end(stderr) });
            }
            let mut bytes = stdout;
            let length: usize = bytes.len();
            if length > 0 && bytes[length - 1] == 10u8 {
                bytes.pop();
            }
            assert(bytes@ =~= spec_trim_bytes(stdout@));
            match text_of(bytes) {
                Ok(version) => Ok(version),
                Err(_) => Err(CommandError::InvalidText),
            }
        },
    }
}

impl CommandError {
    /// The reason in words, for a diagnostic.
    pub fn message(&self) -> (text: String)
        ensures
            text@ == self@.message(),
    {
        match self {
            CommandError::Missing => "git executable not found".to_owned(),
            CommandError::Unstarted(reason) => {
                let mut text = "git could not be started: ".to_owned();
                text.append(reason.as_str());
                text
            },
            CommandError::Failed { status: Some(code), stderr } => {
                let mut text = "git describe exited with status ".to_owned();
                text.append(decimal(*code).as_str());
                text.append(": ");
                text.append(stderr.as_str());
                text
            },
            CommandError::Failed { status: None, stderr } => {
                let mut text = "git describe was terminated: ".to_owned();
                text.append(stderr.as_str());
                text
            },
            CommandError::InvalidText => "git describe printed text that is not valid UTF-8".to_owned(),
        }
    }
}

} // verus!
