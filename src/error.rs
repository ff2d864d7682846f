//! Failures that the pipe logic reports.
use vstd::prelude::*;

verus! {

/// A failure of a pipe operation.
#[derive(Debug, Clone, Copy, PartialEq, Eq, Structural)]
pub enum PipeError {
    /// The system refused a call; the code is `GetLastError`'s, unchanged.
    Os(u32),
    /// A write request finished having moved fewer (or more) bytes than asked for.
    ShortWrite { written: u32, requested: u32 },
    /// A pending read finished having moved no byte.
    EmptyRead,
    /// A wait returned a status that the wait it was asked for cannot return.
    UnexpectedWaitStatus(u32),
}

impl PipeError {
    /// Reads a system call that reports only success or failure: its failure carries
    /// `last_error`, the system's error code after the call.
    pub fn check(succeeded: bool, last_error: u32) -> (r: Result<(), PipeError>)
        ensures
            r == (if succeeded {
                Ok::<(), PipeError>(())
            } else {
                Err(PipeError::Os(last_error))
            }),
    {
        if succeeded {
            Ok(())
        } else {
            Err(PipeError::Os(last_error))
        }
    }
    /// The system error code that this failure carries, if it carries one.
    pub fn os_code(&self) -> (r: Option<u32>)
        ensures
            r == (match *self {
                PipeError::Os(c) => Some(c),
                _ => None::<u32>,
            }),
    {
        match self {
            PipeError::Os(c) => Some(*c),
            _ => None,
        }
    }
}

} // verus!
