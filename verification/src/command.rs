//! What came of running a command: the text it printed, or why it failed.
//!
//! The caller starts the process and hands over what the operating system gave
//! back: an exit status with the captured bytes, or an operating-system error.
//! The functions here decide what that means for the caller of the command.

use vstd::prelude::*;
use vstd::string::*;
use vstd::utf8::{decode_utf8, valid_utf8};

verus! {

/// An error of the operating system: its raw code, where it has one, and its
/// message.
#[derive(Debug, Clone, PartialEq, Eq)]
pub struct OsError {
    pub code: Option<i32>,
    pub message: String,
}

/// The mathematical value of an [`OsError`].
pub struct OsErrorView {
    pub code: Option<i32>,
    pub message: Seq<char>,
}

impl View for OsError {
    type V = OsErrorView;

    open spec fn view(&self) -> OsErrorView {
        OsErrorView { code: self.code, message: self.message@ }
    }
}

/// How a process ended: whether it reported success, and its exit code, which
/// is absent where a signal ended it.
#[derive(Debug, Clone, Copy, PartialEq, Eq)]
pub struct ExitStatus {
    pub success: bool,
    pub code: Option<i32>,
}

/// What a process that has ended left behind.
#[derive(Debug, Clone, PartialEq, Eq)]
pub struct Captured {
    pub status: ExitStatus,
    pub stdout: Vec<u8>,
    pub stderr: Vec<u8>,
}

/// Why a command failed.
#[derive(Debug, Clone, PartialEq, Eq)]
pub enum FailCause {
    /// The process ran and ended without success.
    RunFail { err_code: Option<i32>, err_out: String },
    /// The operating system could not start or control the process.
    ProcFail { err: OsError },
}

/// The mathematical value of a [`FailCause`].
pub enum FailCauseView {
    RunFail { err_code: Option<i32>, err_out: Seq<char> },
    ProcFail { err: OsErrorView },
}

impl View for FailCause {
    type V = FailCauseView;

    open spec fn view(&self) -> FailCauseView {
        match *self {
            FailCause::RunFail { err_code, err_out } => FailCauseView::RunFail {
                err_code,
                err_out: err_out@,
            },
            FailCause::ProcFail { err } => FailCauseView::ProcFail { err: err@ },
        }
    }
}

/// A failed command: how the command was written, and why it failed.
#[derive(Debug, Clone, PartialEq, Eq)]
pub struct CommandFail {
    pub command: String,
    pub cause: FailCause,
}

/// The mathematical value of a [`CommandFail`].
pub struct CommandFailView {
    pub command: Seq<char>,
    pub cause: FailCauseView,
}

impl View for CommandFail {
    type V = CommandFailView;

    open spec fn view(&self) -> CommandFailView {
        CommandFailView { command: self.command@, cause: self.cause@ }
    }
}

/// The failure of `command` whose process ended with `err_code` and wrote
/// `err_out` to its standard error.
pub open spec fn run_fail(command: Seq<char>, err_code: Option<i32>, err_out: Seq<char>)
    -> CommandFailView {
    CommandFailView { command, cause: FailCauseView::RunFail { err_code, err_out } }
}

/// The failure of `command` whose process the operating system could not
/// start or control.
pub open spec fn proc_fail(command: Seq<char>, err: OsErrorView) -> CommandFailView {
    CommandFailView { command, cause: FailCauseView::ProcFail { err } }
}

/// The second line of a rendered failure, line break included; empty where
/// the process failed and wrote nothing to its standard error.
pub open spec fn rendered_cause(cause: FailCauseView) -> Seq<char> {
    match cause {
        FailCauseView::RunFail { err_code, err_out } => if err_out.len() > 0 {
            "\n\tOutput: "@ + err_out
        } else {
            Seq::empty()
        },
        FailCauseView::ProcFail { err } => "\n\tProcess failure: "@ + err.message,
    }
}

/// A failure as shown to the operator.
pub open spec fn rendered(fail: CommandFailView) -> Seq<char> {
    "Command failed: "@ + fail.command + rendered_cause(fail.cause)
}

/// The text that `bytes` decode to as UTF-8, with the replacement character
/// in place of what is no valid UTF-8.
pub uninterp spec fn lossy_text(bytes: Seq<u8>) -> Seq<char>;

/// Calls `String::from_utf8_lossy` and takes the text as an owned `String`.
/// Not proved: that the result is a function of the bytes alone, named
/// `lossy_text`, and that valid UTF-8 decodes to the characters it encodes.
#[verifier::external_body]
fn decode_lossy(bytes: &[u8]) -> (text: String)
    ensures
        text@ == lossy_text(bytes@),
        valid_utf8(bytes@) ==> text@ == decode_utf8(bytes@),
{
    String::from_utf8_lossy(bytes).into_owned()
}

impl CommandFail {
    /// The failure as shown to the operator: the command on the first line,
    /// the cause on an indented second line.
    pub fn render(&self) -> (text: String)
        ensures
            text@ == rendered(self@),
    {
        let mut text = "Command failed: ".to_owned();
        text.append(self.command.as_str());
        match &self.cause {
            FailCause::RunFail { err_code: _, err_out } => {
                if !err_out.as_str().is_empty() {
                    text.append("\n\tOutput: ");
                    text.append(err_out.as_str());
                }
            },
            FailCause::ProcFail { err } => {
                text.append("\n\tProcess failure: ");
                text.append(err.message.as_str());
            },
        }
        assert(text@ =~= rendered(self@));
        text
    }
}

/// The failure of `command` whose process the operating system could not
/// start or control.
pub fn proc_failure(err: OsError, command: &str) -> (fail: CommandFail)
    ensures
        fail@ == proc_fail(command@, err@),
{
    CommandFail { command: command.to_owned(), cause: FailCause::ProcFail { err } }
}

/// Turns an error of the operating system into the failure of `command`, and
/// hands on any other result as it is.
pub fn map_io_err<T>(result: Result<T, OsError>, command: &str) -> (r: Result<T, CommandFail>)
    ensures
        match result {
            Ok(t) => r == Ok::<T, CommandFail>(t),
            Err(err) => r is Err && r->Err_0@ == proc_fail(command@, err@),
        },
{
    match result {
        Ok(t) => Ok(t),
        Err(err) => Err(proc_failure(err, command)),
    }
}

/// What a process that ended with `status` means for `command`, where `text`
/// is what it wrote: to its standard output if it succeeded, to its standard
/// error if not.
pub fn exit_outcome(status: ExitStatus, text: String, command: &str) -> (r: Result<
    String,
    CommandFail,
>)
    ensures
        status.success ==> r is Ok && r->Ok_0@ == text@,
        !status.success ==> r is Err && r->Err_0@ == run_fail(command@, status.code, text@),
{
    if status.success {
        Ok(text)
    } else {
        Err(
            CommandFail {
                command: command.to_owned(),
                cause: FailCause::RunFail { err_code: status.code, err_out: text },
            },
        )
    }
}

/// What a process that has ended means for `command`: the text of its standard
/// output if it succeeded, else a failure with its exit code and the text of
/// its standard error.
pub fn map_output(output: Captured, command: &str) -> (r: Result<String, CommandFail>)
    ensures
        output.status.success ==> r is Ok && r->Ok_0@ == lossy_text(output.stdout@),
        !output.status.success ==> r is Err && r->Err_0@ == run_fail(
            command@,
            output.status.code,
            lossy_text(output.stderr@),
        ),
        output.status.success && valid_utf8(output.stdout@) ==> r->Ok_0@ == decode_utf8(
            output.stdout@,
        ),
{
    let text = if output.status.success {
        decode_lossy(output.stdout.as_slice())
    } else {
        decode_lossy(output.stderr.as_slice())
    };
    exit_outcome(output.status, text, command)
}

/// What waiting for a command gave: the text that it printed, or why the
/// command failed.
pub fn run_outcome(waited: Result<Captured, OsError>, command: &str) -> (r: Result<
    String,
    CommandFail,
>)
    ensures
        match waited {
            Ok(output) => {
                &&& output.status.success ==> r is Ok && r->Ok_0@ == lossy_text(output.stdout@)
                &&& !output.status.success ==> r is Err && r->Err_0@ == run_fail(
                    command@,
                    output.status.code,
                    lossy_text(output.stderr@),
                )
                &&& output.status.success && valid_utf8(output.stdout@) ==> r->Ok_0@
                    == decode_utf8(output.stdout@)
            },
            Err(err) => r is Err && r->Err_0@ == proc_fail(command@, err@),
        },
{
    match map_io_err(waited, command) {
        Ok(output) => map_output(output, command),
        Err(fail) => Err(fail),
    }
}

} // verus!
