//! Guest-side marshaling for a sandboxed function runtime: fat pointers into
//! a shared linear memory, the leak-only allocator that fills it, the log
//! channels, the host-call envelope and the entry-point adapter.

pub mod attestation;
pub mod entrypoint;
pub mod example;
pub mod host_call;
pub mod http;
pub mod io;
pub mod json;
pub mod memory;
