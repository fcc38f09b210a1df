//! The two memory steps of a call into a host service: the serialized
//! request is leaked and its pointer handed to the host; the pointer the host
//! answers with is read back. Between them the host function runs, and after
//! them the answer is decoded as a `HostResult` envelope.
use vstd::prelude::*;
use vstd::utf8::encode_utf8;

use crate::memory::{leak_to_shared_memory, leak_spec, read_spec, FatPointer, SharedMemory};

verus! {

/// Leaks a serialized request for the host. Gives `None`, and leaves the
/// memory as it was, when the request does not fit in the shared memory.
pub fn send_request(mem: &mut SharedMemory, payload: &str) -> (r: Option<FatPointer>)
    ensures
        r is Some <==> old(mem).has_room_spec(encode_utf8(payload@).len()),
        r matches Some(p) ==> (final(mem)@, p) == leak_spec(old(mem)@, encode_utf8(payload@)),
        r is None ==> final(mem)@ == old(mem)@,
{
    let bytes = payload.as_bytes();
    if mem.has_room(bytes.len()) {
        Some(leak_to_shared_memory(mem, bytes))
    } else {
        None
    }
}

/// Copies the host's answer out of the shared memory. Gives `None` when the
/// pointer reaches past the end of the memory.
pub fn receive_response(mem: &SharedMemory, response: FatPointer) -> (r: Option<Vec<u8>>)
    ensures
        r is Some <==> mem.holds_spec(response),
        r matches Some(b) ==> b@ == read_spec(mem@, response),
{
    if mem.holds(response) {
        Some(response.copy_data(mem))
    } else {
        None
    }
}

} // verus!
