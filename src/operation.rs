//! Asynchronous read and write requests: how the result of issuing one is read,
//! and what waiting on it yields.
use vstd::prelude::*;
use crate::error::PipeError;
use crate::os::{ERROR_IO_PENDING, WAIT_TIMEOUT};

verus! {

/// Where a request stands: still queued, or finished with a transfer count.
#[derive(Debug, Clone, Copy, PartialEq, Eq, Structural)]
pub enum OpState {
    Pending,
    Completed(u32),
}

/// How issuing a read reads: finished at once when the call succeeded having moved
/// some bytes, queued when it failed with `ERROR_IO_PENDING`, failed otherwise.
pub open spec fn spec_read_start(accepted: bool, bytes_read: u32, last_error: u32) -> Result<OpState, PipeError> {
    if accepted && bytes_read != 0 {
        Ok(OpState::Completed(bytes_read))
    } else if !accepted && last_error == ERROR_IO_PENDING {
        Ok(OpState::Pending)
    } else {
        Err(PipeError::Os(last_error))
    }
}

/// How issuing a write reads: finished at once when the call succeeded having moved
/// every byte asked for, a failure when it succeeded having moved another number,
/// queued when it failed with `ERROR_IO_PENDING`, failed otherwise.
pub open spec fn spec_write_start(accepted: bool, written: u32, requested: u32, last_error: u32) -> Result<OpState, PipeError> {
    if accepted && written == requested {
        Ok(OpState::Completed(written))
    } else if accepted {
        Err(PipeError::ShortWrite { written, requested })
    } else if last_error == ERROR_IO_PENDING {
        Ok(OpState::Pending)
    } else {
        Err(PipeError::Os(last_error))
    }
}

/// The transfer count that waiting on a read yields. `outcome` is what waiting on
/// the request's signal and fetching its result gave when it was queued: the count,
/// `None` when the wait ended without the signal, or the failure.
pub open spec fn spec_read_finish(state: OpState, outcome: Result<Option<u32>, PipeError>) -> Result<u32, PipeError> {
    match state {
        OpState::Completed(n) => Ok(n),
        OpState::Pending => match outcome {
            Ok(Some(n)) => if n != 0 {
                Ok(n)
            } else {
                Err(PipeError::EmptyRead)
            },
            Ok(None) => Err(PipeError::UnexpectedWaitStatus(WAIT_TIMEOUT)),
            Err(e) => Err(e),
        },
    }
}

/// The transfer count that waiting on a write of `requested` bytes yields, with
/// `outcome` as for a read. A count other than `requested` is a failure.
pub open spec fn spec_write_finish(state: OpState, requested: u32, outcome: Result<Option<u32>, PipeError>) -> Result<u32, PipeError> {
    match state {
        OpState::Completed(n) => Ok(n),
        OpState::Pending => match outcome {
            Ok(Some(n)) => if n == requested {
                Ok(n)
            } else {
                Err(PipeError::ShortWrite { written: n, requested })
            },
            Ok(None) => Err(PipeError::UnexpectedWaitStatus(WAIT_TIMEOUT)),
            Err(e) => Err(e),
        },
    }
}

/// Reads the result of issuing a read.
pub fn read_start(accepted: bool, bytes_read: u32, last_error: u32) -> (r: Result<OpState, PipeError>)
    ensures
        r == spec_read_start(accepted, bytes_read, last_error),
{
    if accepted && bytes_read != 0 {
        Ok(OpState::Completed(bytes_read))
    } else if !accepted && last_error == ERROR_IO_PENDING {
        Ok(OpState::Pending)
    } else {
        Err(PipeError::Os(last_error))
    }
}

/// Reads the result of issuing a write of `requested` bytes.
pub fn write_start(accepted: bool, written: u32, requested: u32, last_error: u32) -> (r: Result<OpState, PipeError>)
    ensures
        r == spec_write_start(accepted, written, requested, last_error),
{
    if accepted && written == requested {
        Ok(OpState::Completed(written))
    } else if accepted {
        Err(PipeError::ShortWrite { written, requested })
    } else if last_error == ERROR_IO_PENDING {
        Ok(OpState::Pending)
    } else {
        Err(PipeError::Os(last_error))
    }
}

/// A read request issued on an endpoint. The owned variant carries what the request
/// took by value (the endpoint and the buffer that the system fills), and hands it
/// back once waited on; the borrowed variant carries nothing.
pub struct ReadHandle<E> {
    state: OpState,
    owned: Option<E>,
}

impl<E> ReadHandle<E> {
    pub closed spec fn spec_state(&self) -> OpState {
        self.state
    }

    pub closed spec fn spec_owned(&self) -> Option<E> {
        self.owned
    }

    /// The request issued by a read call that reported `accepted`, `bytes_read` and
    /// `last_error`; `owned` is what it took by value. No request comes of a call that
    /// failed, and what it took is then dropped.
    pub fn start(accepted: bool, bytes_read: u32, last_error: u32, owned: Option<E>) -> (r: Result<ReadHandle<E>, PipeError>)
        ensures
            match spec_read_start(accepted, bytes_read, last_error) {
                Ok(st) => r matches Ok(h) && h.spec_state() == st && h.spec_owned() == owned,
                Err(e) => r matches Err(f) && f == e,
            },
    {
        match read_start(accepted, bytes_read, last_error) {
            Ok(state) => Ok(ReadHandle { state, owned }),
            Err(e) => Err(e),
        }
    }

    /// Whether the request is still queued, so that the system must be waited on.
    pub fn pending(&self) -> (r: bool)
        ensures
            r == (self.spec_state() == OpState::Pending),
    {
        match self.state {
            OpState::Pending => true,
            OpState::Completed(_) => false,
        }
    }

    /// Finishes the request: the transfer count, with what the request took by value.
    /// A request that finished at issue time ignores `outcome`; a queued one reads it
    /// (see `spec_read_finish`), and no byte read is a failure.
    pub fn wait(self, outcome: Result<Option<u32>, PipeError>) -> (r: Result<(usize, Option<E>), PipeError>)
        ensures
            match spec_read_finish(self.spec_state(), outcome) {
                Ok(n) => r matches Ok(p) && p.0 == n as usize && p.1 == self.spec_owned(),
                Err(e) => r matches Err(f) && f == e,
            },
    {
        let ReadHandle { state, owned } = self;
        match state {
            OpState::Completed(n) => Ok((n as usize, owned)),
            OpState::Pending => match outcome {
                Ok(Some(n)) => {
                    if n != 0 {
                        Ok((n as usize, owned))
                    } else {
                        Err(PipeError::EmptyRead)
                    }
                },
                Ok(None) => Err(PipeError::UnexpectedWaitStatus(WAIT_TIMEOUT)),
                Err(e) => Err(e),
            },
        }
    }
}

/// A write request issued on an endpoint, with the number of bytes it asked to move.
/// Finished at issue time, it has moved exactly that number. The owned variant carries
/// what the request took by value, as for a read.
pub struct WriteHandle<E> {
    state: OpState,
    requested: u32,
    owned: Option<E>,
}

impl<E> WriteHandle<E> {
    #[verifier::type_invariant]
    spec fn inv(&self) -> bool {
        self.state matches OpState::Completed(n) ==> n == self.requested
    }

    pub closed spec fn spec_state(&self) -> OpState {
        self.state
    }

    pub closed spec fn spec_requested(&self) -> u32 {
        self.requested
    }

    pub closed spec fn spec_owned(&self) -> Option<E> {
        self.owned
    }

    /// The request issued by a write call of `requested` bytes that reported
    /// `accepted`, `written` and `last_error`; `owned` is what it took by value.
    pub fn start(accepted: bool, written: u32, requested: u32, last_error: u32, owned: Option<E>) -> (r: Result<WriteHandle<E>, PipeError>)
        ensures
            match spec_write_start(accepted, written, requested, last_error) {
                Ok(st) => r matches Ok(h) && h.spec_state() == st && h.spec_requested()
                    == requested && h.spec_owned() == owned,
                Err(e) => r matches Err(f) && f == e,
            },
    {
        match write_start(accepted, written, requested, last_error) {
            Ok(state) => Ok(WriteHandle { state, requested, owned }),
            Err(e) => Err(e),
        }
    }

    /// Whether the request is still queued, so that the system must be waited on.
    pub fn pending(&self) -> (r: bool)
        ensures
            r == (self.spec_state() == OpState::Pending),
    {
        match self.state {
            OpState::Pending => true,
            OpState::Completed(_) => false,
        }
    }

    /// The number of bytes the request asked to move.
    pub fn requested(&self) -> (r: u32)
        ensures
            r == self.spec_requested(),
    {
        self.requested
    }

    /// Finishes the request: the transfer count, with what the request took by value.
    /// A request that finished at issue time ignores `outcome`; a queued one reads it
    /// (see `spec_write_finish`). A count other than the one asked for is a failure,
    /// never a partial success.
    pub fn wait(self, outcome: Result<Option<u32>, PipeError>) -> (r: Result<(usize, Option<E>), PipeError>)
        ensures
            match spec_write_finish(self.spec_state(), self.spec_requested(), outcome) {
                Ok(n) => r matches Ok(p) && p.0 == n as usize && p.1 == self.spec_owned(),
                Err(e) => r matches Err(f) && f == e,
            },
            r matches Ok(p) ==> p.0 == self.spec_requested() as usize,
    {
        proof {
            use_type_invariant(&self);
        }
        let WriteHandle { state, requested, owned } = self;
        match state {
            OpState::Completed(n) => Ok((n as usize, owned)),
            OpState::Pending => match outcome {
                Ok(Some(n)) => {
                    if n == requested {
                        Ok((n as usize, owned))
                    } else {
                        Err(PipeError::ShortWrite { written: n, requested })
                    }
                },
                Ok(None) => Err(PipeError::UnexpectedWaitStatus(WAIT_TIMEOUT)),
                Err(e) => Err(e),
            },
        }
    }
}

/// A write never reports a partial transfer as success: issued, it fails as soon as
/// the call moved a number of bytes other than the one asked for, and finished at issue
/// time it moved exactly that number; waited on, it succeeds only with that number.
pub proof fn lemma_short_write_is_error(
    accepted: bool,
    written: u32,
    requested: u32,
    last_error: u32,
    state: OpState,
    outcome: Result<Option<u32>, PipeError>,
)
    requires
        state matches OpState::Completed(n) ==> n == requested,
    ensures
        accepted && written != requested ==> spec_write_start(accepted, written, requested, last_error)
            == Err::<OpState, PipeError>(PipeError::ShortWrite { written, requested }),
        spec_write_start(accepted, written, requested, last_error) matches Ok(OpState::Completed(n))
            ==> n == requested,
        spec_write_finish(state, requested, outcome) matches Ok(n) ==> n == requested,
        forall|n: u32|
            n != requested ==> #[trigger] spec_write_finish(OpState::Pending, requested, Ok(Some(n)))
                == Err::<u32, PipeError>(PipeError::ShortWrite { written: n, requested }),
{
}

} // verus!
