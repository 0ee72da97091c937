//! What the host runs and what it reports back: an invocation of a program, and
//! the status with which a process ended.

use vstd::prelude::*;

verus! {

/// How a process ended: with an exit code, or with none when a signal ended it.
#[derive(Debug, Clone, Copy, PartialEq, Eq)]
pub struct ExitStatus {
    pub code: Option<i32>,
}

impl ExitStatus {
    /// The process ended by itself with exit code 0.
    pub open spec fn succeeded(&self) -> bool {
        self.code == Some(0i32)
    }

    /// Whether the process ended by itself with exit code 0.
    #[verifier::when_used_as_spec(succeeded)]
    pub fn success(&self) -> (ok: bool)
        ensures
            ok == self.succeeded(),
    {
        match self.code {
            Some(code) => code == 0,
            None => false,
        }
    }

    /// The exit code, or `None` when a signal ended the process.
    pub fn code(&self) -> (code: Option<i32>)
        ensures
            code == self.code,
    {
        self.code
    }
}

/// Turns a status into a result, so that a failed command can be propagated as an error.
pub trait ExitStatusEx: Sized {
    /// The status that `self` stands for.
    spec fn status(&self) -> ExitStatus;

    /// `Ok` for a success; otherwise the status itself, as the error.
    fn exit_ok_(&self) -> (result: Result<(), ExitStatus>)
        ensures
            result == (if self.status().succeeded() {
                Ok::<(), ExitStatus>(())
            } else {
                Err::<(), ExitStatus>(self.status())
            }),
    ;
}

impl ExitStatusEx for ExitStatus {
    open spec fn status(&self) -> ExitStatus {
        *self
    }

    fn exit_ok_(&self) -> (result: Result<(), ExitStatus>) {
        if self.success() {
            Ok(())
        } else {
            Err(*self)
        }
    }
}

/// One run of a program: its name, its arguments, and the text to feed to its
/// standard input. Without `input` the process keeps the host's standard input.
#[derive(Debug, Clone, PartialEq, Eq)]
pub struct Invocation {
    pub program: String,
    pub args: Vec<String>,
    pub input: Option<String>,
}

/// The mathematical value of an [`Invocation`].
pub struct CommandLine {
    pub program: Seq<char>,
    pub args: Seq<Seq<char>>,
    pub input: Option<Seq<char>>,
}

impl View for Invocation {
    type V = CommandLine;

    open spec fn view(&self) -> CommandLine {
        CommandLine {
            program: self.program@,
            args: self.args.deep_view(),
            input: match self.input {
                Some(text) => Some(text@),
                None => None,
            },
        }
    }
}

} // verus!
