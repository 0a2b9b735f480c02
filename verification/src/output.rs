//! What a process leaves behind.
use vstd::prelude::*;

verus! {

/// How a process ended.
#[derive(Clone, Copy, Debug, PartialEq, Eq, Structural)]
pub enum ExitStatus {
    /// It exited with this code.
    Exited(i32),
    /// It was terminated by this signal.
    Signaled(i32),
}

impl ExitStatus {
    /// The code that a process with this status exited with, if it was not terminated by a signal.
    pub open spec fn exit_code(self) -> Option<i32> {
        match self {
            ExitStatus::Exited(code) => Some(code),
            ExitStatus::Signaled(_) => None,
        }
    }

    /// Is this the status of a process that succeeded, that is, exited with code zero?
    pub open spec fn is_success(self) -> bool {
        self == ExitStatus::Exited(0)
    }

    /// The code that the process exited with, if it was not terminated by a signal.
    pub fn code(&self) -> (code: Option<i32>)
        ensures
            code == self.exit_code(),
            match *self {
                ExitStatus::Exited(c) => code == Some(c),
                ExitStatus::Signaled(_) => code is None,
            },
    {
        match self {
            ExitStatus::Exited(code) => Some(*code),
            ExitStatus::Signaled(_) => None,
        }
    }

    /// Did the process succeed?
    pub fn success(&self) -> (b: bool)
        ensures
            b == self.is_success(),
            b <==> *self == ExitStatus::Exited(0),
    {
        match self {
            ExitStatus::Exited(code) => *code == 0,
            ExitStatus::Signaled(_) => false,
        }
    }
}

/// What a process wrote, and how it ended.
#[derive(Debug)]
pub struct Output {
    pub status: ExitStatus,
    pub stdout: Vec<u8>,
    pub stderr: Vec<u8>,
}

/// The contents of an [`Output`].
pub struct OutputView {
    pub status: ExitStatus,
    pub stdout: Seq<u8>,
    pub stderr: Seq<u8>,
}

impl View for Output {
    type V = OutputView;

    open spec fn view(&self) -> OutputView {
        OutputView { status: self.status, stdout: self.stdout@, stderr: self.stderr@ }
    }
}

} // verus!
