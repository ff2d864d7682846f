//! The Win32 values that the pipe logic reads or hands to the system.
use vstd::prelude::*;

verus! {

/// `GetLastError` after a denied open.
pub const ERROR_ACCESS_DENIED: u32 = 5;

/// `GetLastError` when every instance of the pipe is busy.
pub const ERROR_PIPE_BUSY: u32 = 231;

/// `GetLastError` after `ConnectNamedPipe` when a client connected before the call.
pub const ERROR_PIPE_CONNECTED: u32 = 535;

/// `GetLastError` after an overlapped request that was queued.
pub const ERROR_IO_PENDING: u32 = 997;

/// Wait status of the first object of a wait list.
pub const WAIT_OBJECT_0: u32 = 0;

/// Wait status when the timeout elapsed.
pub const WAIT_TIMEOUT: u32 = 258;

/// Wait status when the wait itself failed.
pub const WAIT_FAILED: u32 = 0xFFFF_FFFF;

/// The timeout that stands for waiting without end.
pub const INFINITE: u32 = 0xFFFF_FFFF;

/// The largest number of objects that one multi-object wait accepts.
pub const MAXIMUM_WAIT_OBJECTS: usize = 64;

pub const PIPE_ACCESS_INBOUND: u32 = 0x0000_0001;

pub const PIPE_ACCESS_OUTBOUND: u32 = 0x0000_0002;

pub const PIPE_ACCESS_DUPLEX: u32 = 0x0000_0003;

pub const FILE_FLAG_OVERLAPPED: u32 = 0x4000_0000;

pub const FILE_FLAG_FIRST_PIPE_INSTANCE: u32 = 0x0008_0000;

/// `PIPE_TYPE_BYTE | PIPE_READMODE_BYTE | PIPE_WAIT`: a blocking byte stream.
pub const PIPE_BYTE_MODE: u32 = 0;

pub const PIPE_UNLIMITED_INSTANCES: u32 = 255;

pub const GENERIC_READ: u32 = 0x8000_0000;

pub const GENERIC_WRITE: u32 = 0x4000_0000;

pub const FILE_READ_ATTRIBUTES: u32 = 0x0080;

pub const FILE_WRITE_ATTRIBUTES: u32 = 0x0100;

/// Buffer size of each direction unless configured otherwise.
pub const DEFAULT_BUFFER_SIZE: u32 = 65536;

} // verus!
