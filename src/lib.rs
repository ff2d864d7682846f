//! Overlapped (asynchronous) I/O over Windows named pipes: the decisions that the
//! pipe endpoints, the asynchronous read and write requests and the multi-object
//! waits make, stated and proved over the values that the operating system reports.
//!
//! The system calls themselves are made by the caller, which hands each result to
//! the functions here and performs the step they return.
pub mod os;
pub mod error;
pub mod options;
pub mod wait;
pub mod operation;
pub mod server;
pub mod client;

pub use error::PipeError;
pub use options::{InstanceRequest, OpenMode, PipeOptions};
pub use wait::{decode_single_wait, overlapped_count, wait, wait_all, wait_list_ok};
pub use operation::{OpState, ReadHandle, WriteHandle};
pub use server::{connect_start, ConnectStart, ConnectingServer, PipeServer};
pub use client::{ClientAction, ClientConnect, ClientEvent, PipeClient};
