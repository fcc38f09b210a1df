//! The two log channels, the host-call result envelope and the context that
//! the entry point hands to a business function.
use vstd::prelude::*;
use vstd::utf8::encode_utf8;

use crate::memory::{leak_to_shared_memory, leak_spec, read_spec, lemma_read_after_leak, lemma_decode_encode, FatPointer, SharedMemory};

verus! {

/// Appends `buf` to `v`.
fn append_bytes(v: &mut Vec<u8>, buf: &[u8])
    ensures
        final(v)@ == old(v)@ + buf@,
{
    let mut i: usize = 0;
    while i < buf.len()
        invariant
            i <= buf@.len(),
            v@ == old(v)@ + buf@.subrange(0, i as int),
        decreases buf@.len() - i,
    {
        v.push(buf[i]);
        i = i + 1;
        assert(v@ =~= old(v)@ + buf@.subrange(0, i as int));
    }
    assert(buf@.subrange(0, buf@.len() as int) =~= buf@);
}

/// A writer that buffers log output for the attestation log; `flush` hands
/// the buffered bytes to the host's buffered-log sink.
pub struct LogWriter {
    buffer: Vec<u8>,
}

impl View for LogWriter {
    type V = Seq<u8>;

    closed spec fn view(&self) -> Seq<u8> {
        self.buffer@
    }
}

impl Default for LogWriter {
    fn default() -> (r: LogWriter)
        ensures
            r@ == Seq::<u8>::empty(),
    {
        LogWriter { buffer: Vec::new() }
    }
}

impl LogWriter {
    /// Appends `buf` to the pending output and reports how many bytes were taken.
    pub fn write(&mut self, buf: &[u8]) -> (r: usize)
        ensures
            final(self)@ == old(self)@ + buf@,
            r == buf@.len(),
    {
        append_bytes(&mut self.buffer, buf);
        buf.len()
    }

    /// Copies the pending output to a new shared-memory buffer and empties the
    /// writer. The returned pointer is the one to hand to the buffered-log sink.
    pub fn flush(&mut self, mem: &mut SharedMemory) -> (p: FatPointer)
        requires
            old(mem).has_room_spec(old(self)@.len()),
        ensures
            final(self)@ == Seq::<u8>::empty(),
            (final(mem)@, p) == leak_spec(old(mem)@, old(self)@),
    {
        let p = leak_to_shared_memory(mem, self.buffer.as_slice());
        self.buffer.clear();
        p
    }
}

/// A writer that buffers output for the host console; `flush` hands the
/// buffered bytes to the host's console-log sink. It carries no integrity
/// guarantee.
pub struct HostWriter {
    buffer: Vec<u8>,
}

impl View for HostWriter {
    type V = Seq<u8>;

    closed spec fn view(&self) -> Seq<u8> {
        self.buffer@
    }
}

impl Default for HostWriter {
    fn default() -> (r: HostWriter)
        ensures
            r@ == Seq::<u8>::empty(),
    {
        HostWriter { buffer: Vec::new() }
    }
}

impl HostWriter {
    /// Appends `buf` to the pending output and reports how many bytes were taken.
    pub fn write(&mut self, buf: &[u8]) -> (r: usize)
        ensures
            final(self)@ == old(self)@ + buf@,
            r == buf@.len(),
    {
        append_bytes(&mut self.buffer, buf);
        buf.len()
    }

    /// Copies the pending output to a new shared-memory buffer and empties the
    /// writer. The returned pointer is the one to hand to the console-log sink.
    pub fn flush(&mut self, mem: &mut SharedMemory) -> (p: FatPointer)
        requires
            old(mem).has_room_spec(old(self)@.len()),
        ensures
            final(self)@ == Seq::<u8>::empty(),
            (final(mem)@, p) == leak_spec(old(mem)@, old(self)@),
    {
        let p = leak_to_shared_memory(mem, self.buffer.as_slice());
        self.buffer.clear();
        p
    }
}

/// The bytes of one logged line: the text in UTF-8 and a newline.
pub open spec fn line_bytes(text: Seq<char>) -> Seq<u8> {
    encode_utf8(text) + seq![10u8]
}

/// Writes `text` and a newline to a fresh writer and flushes it at once.
fn line_of(text: &str) -> (r: Vec<u8>)
    ensures
        r@ == line_bytes(text@),
{
    let mut line: Vec<u8> = Vec::new();
    append_bytes(&mut line, text.as_bytes());
    line.push(10u8);
    line
}

/// Logs one line to the attestation log: nothing stays buffered after the
/// call. The returned pointer is the one to hand to the buffered-log sink.
pub fn log(mem: &mut SharedMemory, text: &str) -> (p: FatPointer)
    requires
        old(mem).has_room_spec(line_bytes(text@).len()),
    ensures
        (final(mem)@, p) == leak_spec(old(mem)@, line_bytes(text@)),
{
    let line = line_of(text);
    let mut w = LogWriter::default();
    w.write(line.as_slice());
    w.flush(mem)
}

/// Logs one line to the host console: nothing stays buffered after the call.
/// The returned pointer is the one to hand to the console-log sink.
pub fn host_log(mem: &mut SharedMemory, text: &str) -> (p: FatPointer)
    requires
        old(mem).has_room_spec(line_bytes(text@).len()),
    ensures
        (final(mem)@, p) == leak_spec(old(mem)@, line_bytes(text@)),
{
    let line = line_of(text);
    let mut w = HostWriter::default();
    w.write(line.as_slice());
    w.flush(mem)
}

/// Two log calls in a row hand the host two buffers, and each holds exactly
/// the line of its own call, also once the second one has been written.
pub proof fn lemma_logs_flush_separately(mem: Seq<u8>, first: Seq<char>, second: Seq<char>)
    requires
        mem.len() + line_bytes(first).len() <= u32::MAX,
        line_bytes(second).len() <= u32::MAX,
    ensures
        ({
            let (m1, p1) = leak_spec(mem, line_bytes(first));
            let (m2, p2) = leak_spec(m1, line_bytes(second));
            &&& read_spec(m2, p1) == line_bytes(first)
            &&& read_spec(m2, p2) == line_bytes(second)
        }),
{
    let (m1, p1) = leak_spec(mem, line_bytes(first));
    lemma_decode_encode(mem.len() as u32, line_bytes(first).len() as u32);
    lemma_read_after_leak(mem, line_bytes(first), FatPointer(0));
    lemma_read_after_leak(m1, line_bytes(second), p1);
}

/// Hands `value` to the host as a call's output.
pub fn output_data(mem: &mut SharedMemory, value: &[u8]) -> (p: FatPointer)
    requires
        old(mem).has_room_spec(value@.len()),
    ensures
        (final(mem)@, p) == leak_spec(old(mem)@, value@),
{
    leak_to_shared_memory(mem, value)
}

/// The envelope in which every host service answers: when `ok` is false,
/// `value` carries nothing; when it is true, `error` carries nothing.
pub struct HostResult<T> {
    pub ok: bool,
    pub error: String,
    pub value: T,
}

impl<T> HostResult<T> {
    /// The value of a successful answer, or the host's error message verbatim.
    pub fn into_result(self) -> (r: Result<T, String>)
        ensures
            self.ok ==> r == Ok::<T, String>(self.value),
            !self.ok ==> r == Err::<T, String>(self.error),
    {
        if self.ok {
            Ok(self.value)
        } else {
            Err(self.error)
        }
    }
}

/// What the entry point hands to a business function: its decoded input and
/// its decoded secrets.
pub struct Context<I = (), S = ()> {
    pub input: I,
    pub secrets: S,
}

} // verus!
