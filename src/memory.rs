//! Fat pointers and the guest's shared linear memory.
use vstd::prelude::*;

verus! {

/// One more than the largest value of a 32-bit half of a fat pointer.
pub const HALF: u64 = 0x1_0000_0000;

/// A buffer descriptor: the upper 32 bits are the offset into the shared
/// memory, the lower 32 bits the length of the buffer in bytes.
#[derive(Debug, Clone, Copy, PartialEq, Eq, Structural)]
pub struct FatPointer(pub u64);

/// The fat pointer that describes `size` bytes at `offset`.
pub open spec fn encode(offset: u32, size: u32) -> FatPointer {
    FatPointer((offset as int * HALF as int + size as int) as u64)
}

impl FatPointer {
    pub open spec fn offset_spec(self) -> u32 {
        (self.0 / HALF) as u32
    }

    pub open spec fn size_spec(self) -> u32 {
        (self.0 % HALF) as u32
    }

    /// Packs an offset and a length into one fat pointer.
    pub fn new(offset: u32, size: u32) -> (r: FatPointer)
        ensures
            r == encode(offset, size),
    {
        let o = offset as u64;
        let s = size as u64;
        assert((o << 32u64) | s == o * 0x1_0000_0000u64 + s) by (bit_vector)
            requires
                o <= 0xFFFF_FFFFu64,
                s <= 0xFFFF_FFFFu64,
        ;
        FatPointer((o << 32u64) | s)
    }

    /// Location in memory where the data is stored.
    pub fn offset(&self) -> (r: u32)
        ensures
            r == self.offset_spec(),
    {
        let x = self.0;
        assert(x >> 32u64 == x / 0x1_0000_0000u64) by (bit_vector);
        (x >> 32u64) as u32
    }

    /// Size of the data in bytes.
    pub fn size(&self) -> (r: u32)
        ensures
            r == self.size_spec(),
    {
        let x = self.0;
        assert(x & 0xFFFF_FFFFu64 == x % 0x1_0000_0000u64) by (bit_vector);
        (x & 0xFFFF_FFFFu64) as u32
    }

    /// Copies the bytes this pointer describes out of the shared memory.
    ///
    /// The pointer is trusted to describe memory the guest owns: that is the
    /// precondition, which the caller checks with `SharedMemory::holds`.
    pub fn copy_data(&self, mem: &SharedMemory) -> (r: Vec<u8>)
        requires
            mem.holds_spec(*self),
        ensures
            r@ == read_spec(mem@, *self),
    {
        let start = self.offset() as usize;
        let n = self.size() as usize;
        let total = mem.bytes.len();
        let mut out: Vec<u8> = Vec::new();
        let mut i: usize = 0;
        while i < n
            invariant
                total == mem@.len(),
                start + n <= mem@.len(),
                i <= n,
                out@ == mem@.subrange(start as int, start + i),
            decreases n - i,
        {
            out.push(mem.bytes[start + i]);
            i = i + 1;
            assert(out@ =~= mem@.subrange(start as int, start + i));
        }
        out
    }
}

/// The bytes that `p` describes in the memory contents `mem`.
pub open spec fn read_spec(mem: Seq<u8>, p: FatPointer) -> Seq<u8> {
    mem.subrange(p.offset_spec() as int, p.offset_spec() + p.size_spec())
}

/// The guest's shared linear memory, modelled as an arena that only grows:
/// a buffer handed to the host is never moved or freed.
pub struct SharedMemory {
    bytes: Vec<u8>,
}

impl View for SharedMemory {
    type V = Seq<u8>;

    closed spec fn view(&self) -> Seq<u8> {
        self.bytes@
    }
}

impl SharedMemory {
    /// Whether a buffer of `n` bytes can be allocated next: its offset and
    /// its length both fit in 32 bits.
    pub open spec fn has_room_spec(&self, n: nat) -> bool {
        self@.len() <= u32::MAX && n <= u32::MAX
    }

    pub open spec fn holds_spec(&self, p: FatPointer) -> bool {
        p.offset_spec() + p.size_spec() <= self@.len()
    }

    /// An empty memory.
    pub fn new() -> (r: SharedMemory)
        ensures
            r@ == Seq::<u8>::empty(),
    {
        SharedMemory { bytes: Vec::new() }
    }

    /// The number of bytes allocated so far.
    pub fn len(&self) -> (r: usize)
        ensures
            r == self@.len(),
    {
        self.bytes.len()
    }

    /// Whether `n` more bytes can be allocated.
    pub fn has_room(&self, n: usize) -> (r: bool)
        ensures
            r == self.has_room_spec(n as nat),
    {
        self.bytes.len() as u64 <= 0xFFFF_FFFFu64 && n as u64 <= 0xFFFF_FFFFu64
    }

    /// Whether `p` describes bytes that lie inside the memory.
    pub fn holds(&self, p: FatPointer) -> (r: bool)
        ensures
            r == self.holds_spec(p),
    {
        p.offset() as u64 + p.size() as u64 <= self.bytes.len() as u64
    }
}

/// The memory after leaking `value`, and the pointer that describes it.
pub open spec fn leak_spec(mem: Seq<u8>, value: Seq<u8>) -> (Seq<u8>, FatPointer) {
    (mem + value, encode(mem.len() as u32, value.len() as u32))
}

/// Allocates a buffer of exactly `value.len()` bytes at the end of the shared
/// memory, copies `value` into it and returns its descriptor. The buffer is
/// never freed: the host, not the guest, is its reader.
pub fn leak_to_shared_memory(mem: &mut SharedMemory, value: &[u8]) -> (p: FatPointer)
    requires
        old(mem).has_room_spec(value@.len()),
    ensures
        (final(mem)@, p) == leak_spec(old(mem)@, value@),
{
    let start = mem.bytes.len();
    let mut i: usize = 0;
    while i < value.len()
        invariant
            start == old(mem)@.len(),
            old(mem)@.len() <= u32::MAX,
            value@.len() <= u32::MAX,
            i <= value@.len(),
            mem@ == old(mem)@ + value@.subrange(0, i as int),
        decreases value@.len() - i,
    {
        mem.bytes.push(value[i]);
        i = i + 1;
        assert(mem@ =~= old(mem)@ + value@.subrange(0, i as int));
    }
    assert(value@.subrange(0, value@.len() as int) =~= value@);
    FatPointer::new(start as u32, value.len() as u32)
}

/// Hands `value` to the host: the same as `leak_to_shared_memory`.
pub fn write_to_host(mem: &mut SharedMemory, value: &[u8]) -> (p: FatPointer)
    requires
        old(mem).has_room_spec(value@.len()),
    ensures
        (final(mem)@, p) == leak_spec(old(mem)@, value@),
{
    leak_to_shared_memory(mem, value)
}

/// Decoding an encoded pointer gives back its offset and its length.
pub proof fn lemma_decode_encode(offset: u32, size: u32)
    ensures
        encode(offset, size).offset_spec() == offset,
        encode(offset, size).size_spec() == size,
{
    let x = offset as int * HALF as int + size as int;
    assert(0 <= x < HALF as int * HALF as int) by (nonlinear_arith)
        requires
            x == offset as int * HALF as int + size as int,
            0 <= offset < HALF,
            0 <= size < HALF,
    ;
    assert(x / HALF as int == offset && x % HALF as int == size) by (nonlinear_arith)
        requires
            x == offset as int * HALF as int + size as int,
            0 <= size < HALF,
    ;
}

/// Reading the pointer that a leak returned gives back exactly the bytes
/// that were leaked, and earlier buffers are left as they were.
pub proof fn lemma_read_after_leak(mem: Seq<u8>, value: Seq<u8>, earlier: FatPointer)
    requires
        mem.len() <= u32::MAX,
        value.len() <= u32::MAX,
        earlier.offset_spec() + earlier.size_spec() <= mem.len(),
    ensures
        read_spec(leak_spec(mem, value).0, leak_spec(mem, value).1) == value,
        read_spec(leak_spec(mem, value).0, earlier) == read_spec(mem, earlier),
{
    lemma_decode_encode(mem.len() as u32, value.len() as u32);
    assert(read_spec(leak_spec(mem, value).0, leak_spec(mem, value).1) =~= value);
    assert(read_spec(leak_spec(mem, value).0, earlier) =~= read_spec(mem, earlier));
}

} // verus!
