//! What came of running a command.
use vstd::prelude::*;
#[allow(unused_imports)]
use vstd::utf8::{decode_utf8, valid_utf8};

verus! {

/// The text that `String::from_utf8_lossy` makes of the bytes.
pub uninterp spec fn utf8_lossy(bytes: Seq<u8>) -> Seq<char>;

/// Calls `String::from_utf8_lossy` of the standard library. Its result depends
/// on the bytes alone, and is their decoding where they are valid UTF-8. What
/// becomes of invalid bytes is not said here.
#[verifier::external_body]
fn from_utf8_lossy(bytes: &[u8]) -> (text: String)
    ensures
        text@ == utf8_lossy(bytes@),
        valid_utf8(bytes@) ==> text@ == decode_utf8(bytes@),
{
    String::from_utf8_lossy(bytes).into_owned()
}

/// Whether the text is what is shown of the bytes: their decoding, where they
/// are valid UTF-8.
pub open spec fn is_shown(text: Seq<char>, bytes: Seq<u8>) -> bool {
    &&& text == utf8_lossy(bytes)
    &&& valid_utf8(bytes) ==> text == decode_utf8(bytes)
}

/// How a command ended and the bytes that it wrote.
#[derive(Debug)]
pub struct RawOutput {
    pub success: bool,
    pub stdout: Vec<u8>,
    pub stderr: Vec<u8>,
}

/// The text that a command wrote.
#[derive(Debug)]
pub struct CommandOutput {
    pub stdout: String,
    pub stderr: String,
}

/// Why a command did not do what it was to do.
#[derive(Debug)]
pub enum CommandError<E> {
    /// The command could not be run.
    Output { source: E },
    /// The command succeeded, and was to fail.
    SuccessExit { stdout: String, stderr: String },
    /// The command failed, and was to succeed.
    ErrorExit { stdout: String, stderr: String },
}

/// Whether a command is to succeed or to fail.
#[derive(Debug, Clone, Copy, PartialEq, Eq, Structural)]
pub enum Expectation {
    Success,
    Failure,
}

impl CommandOutput {
    /// The text that a command wrote, from its bytes.
    pub fn from(output: &RawOutput) -> (text: CommandOutput)
        ensures
            is_shown(text.stdout@, output.stdout@),
            is_shown(text.stderr@, output.stderr@),
    {
        let stdout = from_utf8_lossy(output.stdout.as_slice());
        let stderr = from_utf8_lossy(output.stderr.as_slice());
        CommandOutput { stdout, stderr }
    }

    /// The output of a command that was to succeed, or the error if it did not.
    pub fn of_success<E>(self, success: bool) -> (result: Result<CommandOutput, CommandError<E>>)
        ensures
            success ==> result == Ok::<CommandOutput, CommandError<E>>(self),
            !success ==> result == Err::<CommandOutput, CommandError<E>>(
                (CommandError::ErrorExit { stdout: self.stdout, stderr: self.stderr }),
            ),
    {
        if success {
            Ok(self)
        } else {
            Err(CommandError::ErrorExit { stdout: self.stdout, stderr: self.stderr })
        }
    }

    /// The output of a command that was to fail, or the error if it did not.
    pub fn of_failure<E>(self, success: bool) -> (result: Result<CommandOutput, CommandError<E>>)
        ensures
            !success ==> result == Ok::<CommandOutput, CommandError<E>>(self),
            success ==> result == Err::<CommandOutput, CommandError<E>>(
                (CommandError::SuccessExit { stdout: self.stdout, stderr: self.stderr }),
            ),
    {
        if !success {
            Ok(self)
        } else {
            Err(CommandError::SuccessExit { stdout: self.stdout, stderr: self.stderr })
        }
    }
}

/// Judges a command that was to succeed.
pub fn expect_success<E>(outcome: Result<RawOutput, E>) -> (result: Result<
    CommandOutput,
    CommandError<E>,
>)
    ensures
        outcome matches Err(source) ==> result == Err::<CommandOutput, CommandError<E>>(
            (CommandError::Output { source }),
        ),
        outcome matches Ok(out) ==> if out.success {
            &&& result matches Ok(text)
            &&& is_shown(text.stdout@, out.stdout@)
            &&& is_shown(text.stderr@, out.stderr@)
        } else {
            &&& result matches Err(CommandError::ErrorExit { stdout, stderr })
            &&& is_shown(stdout@, out.stdout@)
            &&& is_shown(stderr@, out.stderr@)
        },
{
    match outcome {
        Err(source) => Err(CommandError::Output { source }),
        Ok(out) => CommandOutput::from(&out).of_success(out.success),
    }
}

/// Judges a command that was to fail.
pub fn expect_failure<E>(outcome: Result<RawOutput, E>) -> (result: Result<
    CommandOutput,
    CommandError<E>,
>)
    ensures
        outcome matches Err(source) ==> result == Err::<CommandOutput, CommandError<E>>(
            (CommandError::Output { source }),
        ),
        outcome matches Ok(out) ==> if !out.success {
            &&& result matches Ok(text)
            &&& is_shown(text.stdout@, out.stdout@)
            &&& is_shown(text.stderr@, out.stderr@)
        } else {
            &&& result matches Err(CommandError::SuccessExit { stdout, stderr })
            &&& is_shown(stdout@, out.stdout@)
            &&& is_shown(stderr@, out.stderr@)
        },
{
    match outcome {
        Err(source) => Err(CommandError::Output { source }),
        Ok(out) => CommandOutput::from(&out).of_failure(out.success),
    }
}

impl<E> CommandError<E> {
    /// What the error says of itself, or what its source says, shown as
    /// `shown`.
    pub open spec fn wording(self, shown: Seq<char>) -> Seq<char> {
        match self {
            CommandError::Output { .. } => shown,
            CommandError::SuccessExit { stdout, stderr } => "The command succeeded.\nstdout:\n"@
                + stdout@ + "\nstderr:\n"@ + stderr@,
            CommandError::ErrorExit { stdout, stderr } => "The command failed.\nstdout:\n"@
                + stdout@ + "\nstderr:\n"@ + stderr@,
        }
    }

    /// What the error says of itself, or what its source says, shown as
    /// `shown`.
    pub fn message(&self, shown: &str) -> (text: String)
        ensures
            text@ == self.wording(shown@),
    {
        match self {
            CommandError::Output { .. } => shown.to_owned(),
            CommandError::SuccessExit { stdout, stderr } => "The command succeeded.\nstdout:\n"
                .to_owned().concat(stdout.as_str()).concat("\nstderr:\n").concat(stderr.as_str()),
            CommandError::ErrorExit { stdout, stderr } => "The command failed.\nstdout:\n"
                .to_owned().concat(stdout.as_str()).concat("\nstderr:\n").concat(stderr.as_str()),
        }
    }
}

} // verus!
