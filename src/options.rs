//! How pipe instances are configured, and the creation request of each instance.
use vstd::prelude::*;
use crate::os::{
    DEFAULT_BUFFER_SIZE, FILE_FLAG_FIRST_PIPE_INSTANCE, FILE_FLAG_OVERLAPPED, PIPE_ACCESS_DUPLEX,
    PIPE_ACCESS_INBOUND, PIPE_ACCESS_OUTBOUND, PIPE_BYTE_MODE, PIPE_UNLIMITED_INSTANCES,
};

verus! {

/// Direction of the data that a pipe instance carries.
#[derive(Debug, Clone, Copy, PartialEq, Eq, Structural)]
pub enum OpenMode {
    /// Read only pipe instance
    Read,
    /// Write only pipe instance
    Write,
    /// Read-write pipe instance
    Duplex,
}

/// The access flag that stands for an open mode.
pub open spec fn access_flags(m: OpenMode) -> u32 {
    match m {
        OpenMode::Read => PIPE_ACCESS_INBOUND,
        OpenMode::Write => PIPE_ACCESS_OUTBOUND,
        OpenMode::Duplex => PIPE_ACCESS_DUPLEX,
    }
}

/// The open-mode argument of an instance: access, overlapped I/O, and first-instance
/// exclusivity where asked for.
pub open spec fn open_flags(m: OpenMode, first: bool) -> u32 {
    access_flags(m) | FILE_FLAG_OVERLAPPED | (if first { FILE_FLAG_FIRST_PIPE_INSTANCE } else { 0 })
}

impl OpenMode {
    /// The access flag of this mode.
    pub fn val(&self) -> (r: u32)
        ensures
            r == access_flags(*self),
    {
        match self {
            OpenMode::Read => PIPE_ACCESS_INBOUND,
            OpenMode::Write => PIPE_ACCESS_OUTBOUND,
            OpenMode::Duplex => PIPE_ACCESS_DUPLEX,
        }
    }
}

/// Everything that the creation of one pipe instance hands to the system.
#[derive(Debug, Clone, Copy, PartialEq, Eq, Structural)]
pub struct InstanceRequest {
    /// Whether this instance is created as the first, exclusive one of its name.
    pub first: bool,
    pub open_flags: u32,
    pub pipe_mode: u32,
    pub max_instances: u32,
    pub out_buffer: u32,
    pub in_buffer: u32,
    pub default_timeout: u32,
}

/// Options and flags which can be used to configure how a pipe is created.
///
/// Builder defaults:
///
/// - **open_mode** - `Duplex`
/// - **in_buffer** - 65536
/// - **out_buffer** - 65536
/// - **first** - true
pub struct PipeOptions {
    name: String,
    open_mode: OpenMode,
    out_buffer: u32,
    in_buffer: u32,
    first: bool,
}

impl PipeOptions {
    pub closed spec fn spec_name(&self) -> Seq<char> {
        self.name@
    }

    pub closed spec fn spec_open_mode(&self) -> OpenMode {
        self.open_mode
    }

    pub closed spec fn spec_out_buffer(&self) -> u32 {
        self.out_buffer
    }

    pub closed spec fn spec_in_buffer(&self) -> u32 {
        self.in_buffer
    }

    pub closed spec fn spec_first(&self) -> bool {
        self.first
    }

    /// The creation request of one instance of these options.
    pub open spec fn spec_request(&self, first: bool) -> InstanceRequest {
        InstanceRequest {
            first,
            open_flags: open_flags(self.spec_open_mode(), first),
            pipe_mode: PIPE_BYTE_MODE,
            max_instances: PIPE_UNLIMITED_INSTANCES,
            out_buffer: self.spec_out_buffer(),
            in_buffer: self.spec_in_buffer(),
            default_timeout: 0,
        }
    }

    /// The creation requests of `num` instances made in one go: only the first of
    /// them may be the first instance of the name.
    pub open spec fn spec_requests(&self, num: nat) -> Seq<InstanceRequest> {
        Seq::new(num, |i: int| self.spec_request(self.spec_first() && i == 0))
    }

    /// Options for the pipe `name`, with the defaults.
    pub fn new(name: &str) -> (r: PipeOptions)
        ensures
            r.spec_name() == name@,
            r.spec_open_mode() == OpenMode::Duplex,
            r.spec_out_buffer() == DEFAULT_BUFFER_SIZE,
            r.spec_in_buffer() == DEFAULT_BUFFER_SIZE,
            r.spec_first(),
    {
        PipeOptions {
            name: name.to_owned(),
            open_mode: OpenMode::Duplex,
            out_buffer: DEFAULT_BUFFER_SIZE,
            in_buffer: DEFAULT_BUFFER_SIZE,
            first: true,
        }
    }

    /// The pipe name.
    pub fn name(&self) -> (r: &str)
        ensures
            r@ == self.spec_name(),
    {
        self.name.as_str()
    }

    /// Is this instance (or instances) will be first for this pipe name? Defaults to `true`.
    pub fn first(&mut self, val: bool) -> (r: &mut PipeOptions)
        ensures
            r.spec_first() == val,
            r.spec_name() == old(self).spec_name(),
            r.spec_open_mode() == old(self).spec_open_mode(),
            r.spec_out_buffer() == old(self).spec_out_buffer(),
            r.spec_in_buffer() == old(self).spec_in_buffer(),
            *final(self) == *final(r),
    {
        self.first = val;
        self
    }

    /// Open mode for pipe instance. Defaults to `Duplex`.
    pub fn open_mode(&mut self, val: OpenMode) -> (r: &mut PipeOptions)
        ensures
            r.spec_open_mode() == val,
            r.spec_name() == old(self).spec_name(),
            r.spec_first() == old(self).spec_first(),
            r.spec_out_buffer() == old(self).spec_out_buffer(),
            r.spec_in_buffer() == old(self).spec_in_buffer(),
            *final(self) == *final(r),
    {
        self.open_mode = val;
        self
    }

    /// Input buffer size for pipe instance. Defaults to 65536.
    pub fn in_buffer(&mut self, val: u32) -> (r: &mut PipeOptions)
        ensures
            r.spec_in_buffer() == val,
            r.spec_name() == old(self).spec_name(),
            r.spec_first() == old(self).spec_first(),
            r.spec_open_mode() == old(self).spec_open_mode(),
            r.spec_out_buffer() == old(self).spec_out_buffer(),
            *final(self) == *final(r),
    {
        self.in_buffer = val;
        self
    }

    /// Output buffer size for pipe instance. Defaults to 65536.
    pub fn out_buffer(&mut self, val: u32) -> (r: &mut PipeOptions)
        ensures
            r.spec_out_buffer() == val,
            r.spec_name() == old(self).spec_name(),
            r.spec_first() == old(self).spec_first(),
            r.spec_open_mode() == old(self).spec_open_mode(),
            r.spec_in_buffer() == old(self).spec_in_buffer(),
            *final(self) == *final(r),
    {
        self.out_buffer = val;
        self
    }

    /// Whether the instances will be first for this pipe name.
    pub fn is_first(&self) -> (r: bool)
        ensures
            r == self.spec_first(),
    {
        self.first
    }

    /// The configured open mode.
    pub fn get_open_mode(&self) -> (r: OpenMode)
        ensures
            r == self.spec_open_mode(),
    {
        self.open_mode
    }

    /// The configured input buffer size.
    pub fn get_in_buffer(&self) -> (r: u32)
        ensures
            r == self.spec_in_buffer(),
    {
        self.in_buffer
    }

    /// The configured output buffer size.
    pub fn get_out_buffer(&self) -> (r: u32)
        ensures
            r == self.spec_out_buffer(),
    {
        self.out_buffer
    }

    /// The creation request of one instance, marked first-of-its-name or not.
    pub fn request(&self, first: bool) -> (r: InstanceRequest)
        ensures
            r == self.spec_request(first),
    {
        let mut flags = self.open_mode.val() | FILE_FLAG_OVERLAPPED;
        if first {
            flags = flags | FILE_FLAG_FIRST_PIPE_INSTANCE;
        }
        assert(flags == open_flags(self.open_mode, first)) by {
            if !first {
                let a = access_flags(self.open_mode);
                assert(a | FILE_FLAG_OVERLAPPED | 0u32 == a | FILE_FLAG_OVERLAPPED) by (bit_vector);
            }
        }
        InstanceRequest {
            first,
            open_flags: flags,
            pipe_mode: PIPE_BYTE_MODE,
            max_instances: PIPE_UNLIMITED_INSTANCES,
            out_buffer: self.out_buffer,
            in_buffer: self.in_buffer,
            default_timeout: 0,
        }
    }

    /// The creation requests of `num` instances of these options, in the order in
    /// which they are to be created. Only the first may be marked first of its name,
    /// and only where the options ask for it; `num == 0` gives none.
    pub fn multiple(&self, num: u32) -> (r: Vec<InstanceRequest>)
        ensures
            r@ == self.spec_requests(num as nat),
    {
        let mut out: Vec<InstanceRequest> = Vec::new();
        let mut first = self.first;
        let mut i: u32 = 0;
        while i < num
            invariant
                i <= num,
                first == (self.spec_first() && i == 0),
                out@ == self.spec_requests(i as nat),
            decreases num - i,
        {
            out.push(self.request(first));
            first = false;
            i = i + 1;
            assert(out@ =~= self.spec_requests(i as nat));
        }
        out
    }

    /// The creation request of a single instance of these options.
    pub fn single(&self) -> (r: InstanceRequest)
        ensures
            r == self.spec_requests(1)[0],
    {
        self.request(self.first)
    }
}

/// Asking for `n > 0` instances gives `n` requests, and exactly the first of them is
/// marked first of its name when the options ask for that (none otherwise); its
/// open-mode flags carry the first-instance bit, and no other request's do.
pub proof fn lemma_multiple_marks_only_first(opts: PipeOptions, n: nat)
    requires
        n > 0,
    ensures
        opts.spec_requests(n).len() == n,
        forall|i: int|
            0 <= i < n ==> (#[trigger] opts.spec_requests(n)[i]).first == (opts.spec_first() && i
                == 0),
        forall|i: int|
            0 <= i < n ==> ((#[trigger] opts.spec_requests(n)[i]).open_flags
                & FILE_FLAG_FIRST_PIPE_INSTANCE != 0) == (opts.spec_first() && i == 0),
{
    assert forall|i: int| 0 <= i < n implies ((#[trigger] opts.spec_requests(n)[i]).open_flags
        & FILE_FLAG_FIRST_PIPE_INSTANCE != 0) == (opts.spec_first() && i == 0) by {
        lemma_first_bit(opts.spec_open_mode(), opts.spec_first() && i == 0);
    }
}

/// Asking for no instance gives no request.
pub proof fn lemma_multiple_zero_is_empty(opts: PipeOptions)
    ensures
        opts.spec_requests(0).len() == 0,
{
}

/// The first-instance bit of the open-mode flags is set exactly for a first instance.
pub proof fn lemma_first_bit(m: OpenMode, first: bool)
    ensures
        (open_flags(m, first) & FILE_FLAG_FIRST_PIPE_INSTANCE != 0) == first,
{
    let a = access_flags(m);
    assert(a <= 3);
    if first {
        assert(a <= 3 ==> (a | 0x4000_0000u32 | 0x0008_0000u32) & 0x0008_0000u32 != 0)
            by (bit_vector);
    } else {
        assert(a <= 3 ==> (a | 0x4000_0000u32 | 0u32) & 0x0008_0000u32 == 0) by (bit_vector);
    }
}

} // verus!
