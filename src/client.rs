//! The client side of a pipe: the decisions of opening a pipe by name, with the
//! single wait for a busy pipe, and the connected client.
use vstd::prelude::*;
use crate::error::PipeError;
use crate::os::{
    ERROR_ACCESS_DENIED, ERROR_PIPE_BUSY, FILE_READ_ATTRIBUTES, FILE_WRITE_ATTRIBUTES,
    GENERIC_READ, GENERIC_WRITE,
};

verus! {

/// The access rights of the open attempts, in order: read and write, then (each after
/// the previous was denied) read only, then write only.
pub open spec fn client_access(attempt: nat) -> u32 {
    if attempt == 0 {
        GENERIC_READ | GENERIC_WRITE
    } else if attempt == 1 {
        GENERIC_READ | FILE_WRITE_ATTRIBUTES
    } else {
        GENERIC_WRITE | FILE_READ_ATTRIBUTES
    }
}

/// What the caller reports to a connecting client.
#[derive(Debug, Clone, Copy, PartialEq, Eq, Structural)]
pub enum ClientEvent {
    /// Opening the pipe failed with this system error code.
    OpenFailed(u32),
    /// The wait for a free instance ended: `true` when one became free in time.
    WaitFinished(bool),
}

/// What a connecting client asks the caller to do next.
#[derive(Debug, Clone, Copy, PartialEq, Eq, Structural)]
pub enum ClientAction {
    /// Open the pipe again, with the access rights that the client now gives.
    Open,
    /// Wait, up to this timeout, for an instance of the pipe to become free.
    WaitForInstance(u32),
    /// Give up with this failure.
    Fail(PipeError),
}

/// Where a connecting client stands: which open attempt comes next, whether it has
/// already asked to wait for a free instance, whether that wait is under way, and how
/// long such a wait may take.
pub struct ConnectPhase {
    pub attempt: nat,
    pub waited: bool,
    pub waiting: bool,
    pub timeout: u32,
}

/// Whether an event answers what the client last asked for: the end of the wait while
/// it waits for a free instance, the failure of an open otherwise.
pub open spec fn event_fits(p: ConnectPhase, e: ClientEvent) -> bool {
    (e is WaitFinished) == p.waiting
}

/// One step of connecting: the next phase and what the caller must do. A denied open
/// tries the next access rights; a busy pipe is waited for once, after which the
/// opens start over; anything else, and a second busy pipe, ends the attempt.
pub open spec fn phase_step(p: ConnectPhase, e: ClientEvent) -> (ConnectPhase, ClientAction) {
    match e {
        ClientEvent::OpenFailed(code) => if code == ERROR_ACCESS_DENIED && p.attempt < 2 {
            (ConnectPhase { attempt: p.attempt + 1, ..p }, ClientAction::Open)
        } else if code == ERROR_PIPE_BUSY && !p.waited {
            (
                ConnectPhase { attempt: 0, waited: true, waiting: true, ..p },
                ClientAction::WaitForInstance(p.timeout),
            )
        } else {
            (p, ClientAction::Fail(PipeError::Os(code)))
        },
        ClientEvent::WaitFinished(available) => if available {
            (ConnectPhase { attempt: 0, waiting: false, ..p }, ClientAction::Open)
        } else {
            (p, ClientAction::Fail(PipeError::Os(ERROR_PIPE_BUSY)))
        },
    }
}

/// The number of waits for a free instance that a run of events asks for; a run
/// stops at the first failure.
pub open spec fn waits_in_run(p: ConnectPhase, events: Seq<ClientEvent>) -> nat
    decreases events.len(),
{
    if events.len() == 0 {
        0
    } else {
        let (q, a) = phase_step(p, events[0]);
        let here: nat = if a is WaitForInstance { 1 } else { 0 };
        if a is Fail {
            here
        } else {
            here + waits_in_run(q, events.drop_first())
        }
    }
}

/// The number of steps of a run of events, each answering what was last asked for,
/// before connecting gives up; a run stops at the first failure or the first event that
/// does not answer.
pub open spec fn steps_in_run(p: ConnectPhase, events: Seq<ClientEvent>) -> nat
    decreases events.len(),
{
    if events.len() == 0 || !event_fits(p, events[0]) {
        0
    } else {
        let (q, a) = phase_step(p, events[0]);
        if a is Fail {
            0
        } else {
            1 + steps_in_run(q, events.drop_first())
        }
    }
}

/// How many more steps a client may take before it must give up.
pub open spec fn steps_left(p: ConnectPhase) -> nat {
    if !p.waited {
        (6 - p.attempt) as nat
    } else if p.waiting {
        3
    } else {
        (2 - p.attempt) as nat
    }
}

/// Connecting never loops without end: after the first open of a new client, at most
/// six further opens and waits come before it either has the pipe open or gives up.
pub proof fn lemma_connect_is_bounded(p: ConnectPhase, events: Seq<ClientEvent>)
    requires
        p.attempt <= 2,
        !p.waited ==> !p.waiting,
    ensures
        steps_in_run(p, events) <= steps_left(p),
        steps_left(p) <= 6,
    decreases events.len(),
{
    if events.len() > 0 && event_fits(p, events[0]) {
        let (q, a) = phase_step(p, events[0]);
        if !(a is Fail) {
            lemma_connect_is_bounded(q, events.drop_first());
        }
    }
}

/// Whatever is reported, connecting asks at most once to wait for a free instance,
/// and never again once it has waited.
pub proof fn lemma_at_most_one_wait(p: ConnectPhase, events: Seq<ClientEvent>)
    ensures
        waits_in_run(p, events) <= (if p.waited { 0nat } else { 1nat }),
    decreases events.len(),
{
    if events.len() > 0 {
        let (q, a) = phase_step(p, events[0]);
        if !(a is Fail) {
            lemma_at_most_one_wait(q, events.drop_first());
        }
    }
}

/// A busy pipe after the wait for a free instance ends the attempt, with the busy
/// error; before it, a busy pipe leads to that wait.
pub proof fn lemma_busy_after_wait_is_terminal(p: ConnectPhase)
    ensures
        p.waited ==> phase_step(p, ClientEvent::OpenFailed(ERROR_PIPE_BUSY)).1 == ClientAction::Fail(
            PipeError::Os(ERROR_PIPE_BUSY),
        ),
        !p.waited ==> phase_step(p, ClientEvent::OpenFailed(ERROR_PIPE_BUSY)) == (
            ConnectPhase { attempt: 0, waited: true, waiting: true, timeout: p.timeout },
            ClientAction::WaitForInstance(p.timeout),
        ),
{
}

/// The state of a client that is connecting to a pipe by name.
pub struct ClientConnect {
    attempt: u8,
    waited: bool,
    waiting: bool,
    timeout: u32,
}

impl View for ClientConnect {
    type V = ConnectPhase;

    closed spec fn view(&self) -> ConnectPhase {
        ConnectPhase {
            attempt: self.attempt as nat,
            waited: self.waited,
            waiting: self.waiting,
            timeout: self.timeout,
        }
    }
}

impl ClientConnect {
    #[verifier::type_invariant]
    spec fn inv(&self) -> bool {
        &&& self.attempt <= 2
        &&& !self.waited ==> !self.waiting
    }

    /// A client about to make its first open; a busy pipe is waited for up to
    /// `timeout` (0xFFFFFFFF stands for infinite waiting).
    pub fn new(timeout: u32) -> (r: ClientConnect)
        ensures
            r@ == (ConnectPhase { attempt: 0, waited: false, waiting: false, timeout }),
    {
        ClientConnect { attempt: 0, waited: false, waiting: false, timeout }
    }

    /// The access rights of the next open.
    pub fn access(&self) -> (r: u32)
        ensures
            r == client_access(self@.attempt),
    {
        if self.attempt == 0 {
            GENERIC_READ | GENERIC_WRITE
        } else if self.attempt == 1 {
            GENERIC_READ | FILE_WRITE_ATTRIBUTES
        } else {
            GENERIC_WRITE | FILE_READ_ATTRIBUTES
        }
    }

    /// Whether the client waits for a free instance, so that the next event must be the
    /// end of that wait.
    pub fn waiting(&self) -> (r: bool)
        ensures
            r == self@.waiting,
    {
        self.waiting
    }

    /// Takes in what the caller reports, in answer to what the client last asked for,
    /// and says what it must do next.
    pub fn step(&mut self, event: ClientEvent) -> (r: ClientAction)
        requires
            event_fits(old(self)@, event),
        ensures
            (final(self)@, r) == phase_step(old(self)@, event),
    {
        proof {
            use_type_invariant(&*self);
        }
        match event {
            ClientEvent::OpenFailed(code) => {
                if code == ERROR_ACCESS_DENIED && self.attempt < 2 {
                    self.attempt = self.attempt + 1;
                    ClientAction::Open
                } else if code == ERROR_PIPE_BUSY && !self.waited {
                    self.attempt = 0;
                    self.waited = true;
                    self.waiting = true;
                    ClientAction::WaitForInstance(self.timeout)
                } else {
                    ClientAction::Fail(PipeError::Os(code))
                }
            },
            ClientEvent::WaitFinished(available) => {
                if available {
                    self.attempt = 0;
                    self.waiting = false;
                    ClientAction::Open
                } else {
                    ClientAction::Fail(PipeError::Os(ERROR_PIPE_BUSY))
                }
            },
        }
    }
}

/// Pipe client connected to a server, holding its resources `R` (its handle and the
/// state of its overlapped requests).
pub struct PipeClient<R> {
    io: R,
}

impl<R> PipeClient<R> {
    pub closed spec fn spec_io(&self) -> R {
        self.io
    }

    /// The client over the resources of an opened pipe.
    pub fn new(io: R) -> (r: PipeClient<R>)
        ensures
            r.spec_io() == io,
    {
        PipeClient { io }
    }

    /// The client's resources.
    pub fn io(&self) -> (r: &R)
        ensures
            *r == self.spec_io(),
    {
        &self.io
    }

    /// The client's resources, to issue requests with.
    pub fn io_mut(&mut self) -> (r: &mut R)
        ensures
            *r == old(self).spec_io(),
            final(self).spec_io() == *final(r),
    {
        &mut self.io
    }
}

} // verus!
