//! The server side of a pipe: an instance waiting for a client, and one connected
//! to a client.
use vstd::prelude::*;
use crate::error::PipeError;
use crate::os::{ERROR_IO_PENDING, ERROR_PIPE_CONNECTED, WAIT_TIMEOUT};

verus! {

/// How a connect request on a pipe instance started.
#[derive(Debug, Clone, Copy, PartialEq, Eq, Structural)]
pub enum ConnectStart {
    /// The request is queued: its signal is set once a client connects.
    Pending,
    /// A client was connected before the request: its signal must be set at once.
    Connected,
}

/// How an overlapped connect call reads, from whether it returned success and the
/// system's error code after it. An overlapped connect that reports success is a
/// failure.
pub open spec fn spec_connect_start(accepted: bool, last_error: u32) -> Result<ConnectStart, PipeError> {
    if accepted {
        Err(PipeError::Os(last_error))
    } else if last_error == ERROR_IO_PENDING {
        Ok(ConnectStart::Pending)
    } else if last_error == ERROR_PIPE_CONNECTED {
        Ok(ConnectStart::Connected)
    } else {
        Err(PipeError::Os(last_error))
    }
}

/// Reads the result of issuing an overlapped connect.
pub fn connect_start(accepted: bool, last_error: u32) -> (r: Result<ConnectStart, PipeError>)
    ensures
        r == spec_connect_start(accepted, last_error),
{
    if accepted {
        Err(PipeError::Os(last_error))
    } else if last_error == ERROR_IO_PENDING {
        Ok(ConnectStart::Pending)
    } else if last_error == ERROR_PIPE_CONNECTED {
        Ok(ConnectStart::Connected)
    } else {
        Err(PipeError::Os(last_error))
    }
}

/// Pipe instance waiting for new client, holding the instance's resources `R` (its
/// handle and the state of its overlapped requests).
pub struct ConnectingServer<R> {
    io: R,
    pending: bool,
}

/// Pipe server connected to a client. It holds its resources for its whole life,
/// and gives them up only by being consumed.
pub struct PipeServer<R> {
    io: R,
}

impl<R> ConnectingServer<R> {
    pub closed spec fn spec_io(&self) -> R {
        self.io
    }

    pub closed spec fn spec_pending(&self) -> bool {
        self.pending
    }

    /// The instance whose connect request started as `start`.
    pub fn new(io: R, start: ConnectStart) -> (r: ConnectingServer<R>)
        ensures
            r.spec_io() == io,
            r.spec_pending() == (start == ConnectStart::Pending),
    {
        let pending = match start {
            ConnectStart::Pending => true,
            ConnectStart::Connected => false,
        };
        ConnectingServer { io, pending }
    }

    /// Whether the connect request is still queued, so that its signal must be
    /// waited on before the instance is connected.
    pub fn pending(&self) -> (r: bool)
        ensures
            r == self.spec_pending(),
    {
        self.pending
    }

    /// The instance's resources.
    pub fn io(&self) -> (r: &R)
        ensures
            *r == self.spec_io(),
    {
        &self.io
    }

    /// The instance's resources, to wait on and to fetch the connect result with.
    pub fn io_mut(&mut self) -> (r: &mut R)
        ensures
            *r == old(self).spec_io(),
            final(self).spec_io() == *final(r),
            final(self).spec_pending() == old(self).spec_pending(),
    {
        &mut self.io
    }

    /// Waiting for a client with a timeout: `outcome` is what waiting on the connect
    /// request's signal and fetching its result gave (`None` when the timeout elapsed
    /// first), and is read only while the request is pending. On timeout the instance
    /// comes back unchanged, so that the same wait can be made again.
    pub fn wait_ms(self, outcome: Result<Option<u32>, PipeError>) -> (r: Result<Result<PipeServer<R>, ConnectingServer<R>>, PipeError>)
        ensures
            !self.spec_pending() ==> (r matches Ok(Ok(s)) && s.spec_io() == self.spec_io()),
            self.spec_pending() ==> match outcome {
                Ok(Some(_)) => r matches Ok(Ok(s)) && s.spec_io() == self.spec_io(),
                Ok(None) => r matches Ok(Err(c)) && c == self,
                Err(e) => r matches Err(f) && f == e,
            },
    {
        if self.pending {
            match outcome {
                Ok(Some(_)) => {},
                Ok(None) => return Ok(Err(self)),
                Err(e) => return Err(e),
            }
        }
        let ConnectingServer { io, .. } = self;
        Ok(Ok(PipeServer { io }))
    }

    /// Waiting for a client without end: as `wait_ms`, where the wait cannot time out,
    /// so that a timeout is an unexpected wait status.
    pub fn wait(self, outcome: Result<Option<u32>, PipeError>) -> (r: Result<PipeServer<R>, PipeError>)
        ensures
            !self.spec_pending() ==> (r matches Ok(s) && s.spec_io() == self.spec_io()),
            self.spec_pending() ==> match outcome {
                Ok(Some(_)) => r matches Ok(s) && s.spec_io() == self.spec_io(),
                Ok(None) => r matches Err(f) && f == PipeError::UnexpectedWaitStatus(WAIT_TIMEOUT),
                Err(e) => r matches Err(f) && f == e,
            },
    {
        match self.wait_ms(outcome) {
            Ok(Ok(s)) => Ok(s),
            Ok(Err(_)) => Err(PipeError::UnexpectedWaitStatus(WAIT_TIMEOUT)),
            Err(e) => Err(e),
        }
    }
}

impl<R> PipeServer<R> {
    pub closed spec fn spec_io(&self) -> R {
        self.io
    }

    /// The connected server's resources.
    pub fn io(&self) -> (r: &R)
        ensures
            *r == self.spec_io(),
    {
        &self.io
    }

    /// The connected server's resources, to issue requests with.
    pub fn io_mut(&mut self) -> (r: &mut R)
        ensures
            *r == old(self).spec_io(),
            final(self).spec_io() == *final(r),
    {
        &mut self.io
    }

    /// Disconnects the server from its client and starts waiting for a new client:
    /// `relisten` is the outcome of the disconnection and of the new connect request
    /// issued on the same resources. On failure the resources are dropped.
    pub fn unwrap(self, relisten: Result<ConnectStart, PipeError>) -> (r: Result<ConnectingServer<R>, PipeError>)
        ensures
            match relisten {
                Ok(start) => r matches Ok(c) && c.spec_io() == self.spec_io() && c.spec_pending()
                    == (start == ConnectStart::Pending),
                Err(e) => r matches Err(f) && f == e,
            },
    {
        match relisten {
            Ok(start) => Ok(ConnectingServer::new(self.io, start)),
            Err(e) => Err(e),
        }
    }
}

} // verus!
