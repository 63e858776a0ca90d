use vstd::prelude::*;

use crate::memory::{le_byte, spec_read_u32, u32_of_le};

verus! {

/// Alignment the shim rounds every payload up to: the host pointer
/// alignment the native allocator contract expects.
pub const ALIGN: usize = 8;

/// Bytes of the hidden size header that precedes every payload.  The
/// native library's free entry point passes back only an address, so
/// the allocation size must travel with the allocation itself.
pub const HEADER_SIZE: usize = 8;

/// Mathematical round-up of `n` to the next multiple of `align`.
pub open spec fn spec_align_up(n: int, align: int) -> int {
    ((n + align - 1) / align) * align
}

/// The total block size a request for `items` elements of `item_size`
/// bytes each must come to: the payload rounded up to the alignment,
/// plus the size header.
pub open spec fn spec_total_size(items: u32, item_size: u32) -> int {
    spec_align_up(items as int * item_size as int, ALIGN as int) + HEADER_SIZE as int
}

/// The low half of a 64-bit header value.
pub open spec fn u64_low(x: u64) -> u32 {
    (x & 0xffff_ffff) as u32
}

/// The high half of a 64-bit header value.
pub open spec fn u64_high(x: u64) -> u32 {
    (x >> 32u64) as u32
}

/// A 64-bit value reassembled from its halves.
pub open spec fn u64_of_halves(low: u32, high: u32) -> u64 {
    (low as u64) | ((high as u64) << 32u64)
}

/// The size header stored little-endian in the first eight bytes of a
/// block.
pub open spec fn spec_header(b: Seq<u8>) -> u64 {
    u64_of_halves(spec_read_u32(b, 0), spec_read_u32(b, 4))
}

/// A fresh block of `total` bytes: the size header followed by a
/// zeroed payload.
pub open spec fn spec_new_block(total: usize) -> Seq<u8> {
    Seq::new(
        total as nat,
        |i: int|
            if i < 4 {
                le_byte(u64_low(total as u64), i)
            } else if i < 8 {
                le_byte(u64_high(total as u64), i - 4)
            } else {
                0u8
            },
    )
}

proof fn lemma_u64_halves_roundtrip(x: u64)
    ensures
        u64_of_halves(u64_low(x), u64_high(x)) == x,
{
    assert((((x & 0xffff_ffff) as u32) as u64) | ((((x >> 32u64) as u32) as u64) << 32u64)
        == x) by (bit_vector);
}

/// Law: the size recorded in a fresh block's header is read back
/// identically when the block is released — the shim's byte
/// accounting balances.
pub proof fn lemma_header_roundtrip(total: usize)
    requires
        HEADER_SIZE <= total,
    ensures
        spec_header(spec_new_block(total)) == total as u64,
{
    let b = spec_new_block(total);
    crate::memory::lemma_le_bytes_of_u32(
        le_byte(u64_low(total as u64), 0),
        le_byte(u64_low(total as u64), 1),
        le_byte(u64_low(total as u64), 2),
        le_byte(u64_low(total as u64), 3),
    );
    crate::memory::lemma_u32_le_roundtrip(u64_low(total as u64));
    crate::memory::lemma_u32_le_roundtrip(u64_high(total as u64));
    lemma_u64_halves_roundtrip(total as u64);
}

proof fn lemma_align_up_bounds(n: int)
    by (nonlinear_arith)
    requires
        0 <= n,
    ensures
        n <= spec_align_up(n, 8),
        spec_align_up(n, 8) < n + 8,
        spec_align_up(n, 8) % 8 == 0,
{
}

proof fn lemma_align_unique(n: int, r: int)
    by (nonlinear_arith)
    requires
        0 <= n,
        r % 8 == 0,
        n <= r < n + 8,
    ensures
        r == spec_align_up(n, 8),
{
}

/// Rounds `size` up to the next multiple of `align`, by the mask trick
/// the allocation path uses.  The shim only ever aligns to `ALIGN`.
pub fn align_up(size: usize, align: usize) -> (r: usize)
    requires
        align == ALIGN,
        size + align - 1 <= usize::MAX,
    ensures
        r == spec_align_up(size as int, align as int),
{
    let y = size + (align - 1);
    let r = y & !(align - 1);
    proof {
        assert(y & !7usize <= y && y < (y & !7usize) + 8 && (y & !7usize) % 8 == 0)
            by (bit_vector);
        lemma_align_unique(size as int, r as int);
    }
    r
}

/// Computes the total block size for an allocation request, or `None`
/// where the arithmetic overflows or the result is beyond what any
/// host allocation may be.  A `None` here becomes the native failure
/// sentinel (a null return), never a truncated or wrapped allocation.
pub fn alloc_total_size(items: u32, item_size: u32) -> (r: Option<usize>)
    ensures
        r is Some <==> spec_total_size(items, item_size) <= isize::MAX as int,
        r is Some ==> r->0 == spec_total_size(items, item_size),
        items as int * item_size as int > usize::MAX as int ==> r is None,
{
    proof {
        lemma_align_up_bounds(items as int * item_size as int);
    }
    let payload = match (items as usize).checked_mul(item_size as usize) {
        Some(p) => p,
        None => {
            return None;
        },
    };
    if payload > usize::MAX - (ALIGN - 1) {
        return None;
    }
    let rounded = align_up(payload, ALIGN);
    let total = match rounded.checked_add(HEADER_SIZE) {
        Some(t) => t,
        None => {
            return None;
        },
    };
    if total > (isize::MAX as usize) {
        return None;
    }
    Some(total)
}

/// One host heap block made by the shim: the hidden size header in its
/// first eight bytes, the payload after it.  The header lives exactly
/// as long as the payload and is read back, not recomputed, when the
/// block is released.
pub struct TrackedAllocation {
    bytes: Vec<u8>,
}

impl View for TrackedAllocation {
    type V = Seq<u8>;

    closed spec fn view(&self) -> Seq<u8> {
        self.bytes@
    }
}

impl TrackedAllocation {
    /// The header matches the block's real size.
    pub open spec fn wf(&self) -> bool {
        &&& HEADER_SIZE <= self@.len()
        &&& spec_header(self@) == self@.len() as u64
    }

    /// Builds a fresh block of `total` bytes with the header written.
    pub fn with_total(total: usize) -> (r: TrackedAllocation)
        requires
            HEADER_SIZE <= total,
        ensures
            r@ == spec_new_block(total),
            r.wf(),
    {
        let mut bytes: Vec<u8> = Vec::new();
        let mut j: usize = 0;
        while j < total
            invariant
                j <= total,
                bytes@ == Seq::new(j as nat, |i: int| 0u8),
            decreases total - j,
        {
            bytes.push(0);
            j = j + 1;
        }
        let low = low_half(total);
        let high = high_half(total);
        bytes.set(0, byte_of_u32(low, 0));
        bytes.set(1, byte_of_u32(low, 1));
        bytes.set(2, byte_of_u32(low, 2));
        bytes.set(3, byte_of_u32(low, 3));
        bytes.set(4, byte_of_u32(high, 0));
        bytes.set(5, byte_of_u32(high, 1));
        bytes.set(6, byte_of_u32(high, 2));
        bytes.set(7, byte_of_u32(high, 3));
        let r = TrackedAllocation { bytes };
        proof {
            assert(r@ =~= spec_new_block(total));
            lemma_header_roundtrip(total);
        }
        r
    }

    /// Steps back over the payload and reads the stored size out of the
    /// header, exactly as the release path must.
    pub fn stored_size(&self) -> (r: usize)
        requires
            self.wf(),
        ensures
            r as u64 == spec_header(self@),
            r == self@.len(),
    {
        let n = self.bytes.len();
        let b0 = self.bytes[0];
        let b1 = self.bytes[1];
        let b2 = self.bytes[2];
        let b3 = self.bytes[3];
        let b4 = self.bytes[4];
        let b5 = self.bytes[5];
        let b6 = self.bytes[6];
        let b7 = self.bytes[7];
        let low = (b0 as u32) | ((b1 as u32) << 8u32) | ((b2 as u32) << 16u32) | ((b3 as u32)
            << 24u32);
        let high = (b4 as u32) | ((b5 as u32) << 8u32) | ((b6 as u32) << 16u32) | ((b7 as u32)
            << 24u32);
        let combined = (low as u64) | ((high as u64) << 32u64);
        proof {
            assert(combined == spec_header(self@));
            assert(combined == n as u64);
        }
        combined as usize
    }

    /// The bytes available to the caller, after the header.
    pub fn payload_len(&self) -> (r: usize)
        requires
            self.wf(),
        ensures
            r == self@.len() - HEADER_SIZE,
    {
        self.bytes.len() - HEADER_SIZE
    }

    /// Writes payload byte `i`.  The header is never touched, so the
    /// recorded size survives every payload write.
    pub fn write_payload(&mut self, i: usize, b: u8)
        requires
            old(self).wf(),
            i < old(self)@.len() - HEADER_SIZE,
        ensures
            final(self)@ == old(self)@.update(HEADER_SIZE + i, b),
            final(self).wf(),
            spec_header(final(self)@) == spec_header(old(self)@),
    {
        let n = self.bytes.len();
        self.bytes.set(HEADER_SIZE + i, b);
    }

    /// Reads payload byte `i`.
    pub fn read_payload(&self, i: usize) -> (r: u8)
        requires
            self.wf(),
            i < self@.len() - HEADER_SIZE,
        ensures
            r == self@[HEADER_SIZE + i],
    {
        let n = self.bytes.len();
        self.bytes[HEADER_SIZE + i]
    }
}

fn low_half(total: usize) -> (r: u32)
    ensures
        r == u64_low(total as u64),
{
    proof {
        assert((total as u64) & 0xffff_ffff <= 0xffff_ffffu64) by (bit_vector);
    }
    ((total as u64) & 0xffff_ffff) as u32
}

fn high_half(total: usize) -> (r: u32)
    ensures
        r == u64_high(total as u64),
{
    proof {
        assert((total as u64) >> 32u64 <= 0xffff_ffffu64) by (bit_vector);
    }
    ((total as u64) >> 32u64) as u32
}

fn byte_of_u32(x: u32, k: usize) -> (r: u8)
    requires
        k < 4,
    ensures
        r == le_byte(x, k as int),
{
    proof {
        assert(x & 0xff < 256 && (x >> 8u32) & 0xff < 256 && (x >> 16u32) & 0xff < 256 && (x
            >> 24u32) & 0xff < 256) by (bit_vector);
    }
    if k == 0 {
        (x & 0xff) as u8
    } else if k == 1 {
        ((x >> 8u32) & 0xff) as u8
    } else if k == 2 {
        ((x >> 16u32) & 0xff) as u8
    } else {
        ((x >> 24u32) & 0xff) as u8
    }
}

/// The shim's view of its live blocks.  A handle returned by
/// `allocate` stands for the address the real shim would hand the
/// native library; it is spent by exactly one matching `deallocate`.
pub struct AllocShim {
    pub blocks: Vec<Option<TrackedAllocation>>,
}

impl AllocShim {
    /// Every live block is well formed.
    pub open spec fn wf(&self) -> bool {
        forall|i: int|
            0 <= i < self.blocks@.len() && self.blocks@[i] is Some ==> (#[trigger] self.blocks@[i])->0.wf()
    }

    pub fn new() -> (r: AllocShim)
        ensures
            r.wf(),
            r.blocks@.len() == 0,
    {
        AllocShim { blocks: Vec::new() }
    }

    /// Satisfies one native allocation request: computes the total
    /// block size, and on success records a fresh block whose header
    /// holds that size.  Returns `None` — the native failure sentinel —
    /// exactly where the size arithmetic cannot be satisfied; in
    /// particular an `items * item_size` product that overflows the
    /// native size type is refused, never truncated or wrapped.
    pub fn allocate(&mut self, items: u32, item_size: u32) -> (r: Option<usize>)
        requires
            old(self).wf(),
        ensures
            final(self).wf(),
            r is Some <==> spec_total_size(items, item_size) <= isize::MAX as int,
            items as int * item_size as int > usize::MAX as int ==> r is None,
            r is None ==> final(self).blocks@ == old(self).blocks@,
            r is Some ==> {
                &&& r->0 == old(self).blocks@.len()
                &&& final(self).blocks@.len() == old(self).blocks@.len() + 1
                &&& final(self).blocks@.subrange(0, old(self).blocks@.len() as int) == old(
                    self,
                ).blocks@
                &&& final(self).blocks@.last() is Some
                &&& final(self).blocks@.last()->0@ == spec_new_block(
                    spec_total_size(items, item_size) as usize,
                )
                &&& spec_header(final(self).blocks@.last()->0@) == spec_total_size(
                    items,
                    item_size,
                ) as u64
            },
    {
        let total = match alloc_total_size(items, item_size) {
            Some(t) => t,
            None => {
                return None;
            },
        };
        let block = TrackedAllocation::with_total(total);
        proof {
            lemma_header_roundtrip(total);
        }
        let handle = self.blocks.len();
        self.blocks.push(Some(block));
        proof {
            assert(final(self).blocks@.subrange(0, old(self).blocks@.len() as int) =~= old(
                self,
            ).blocks@);
        }
        Some(handle)
    }

    /// Releases one block: reads the stored size back out of the header
    /// and returns it, so a caller can release exactly the bytes that
    /// were allocated.  The returned count always equals both the
    /// recorded header value and the block's true size.
    pub fn deallocate(&mut self, handle: usize) -> (r: usize)
        requires
            old(self).wf(),
            handle < old(self).blocks@.len(),
            old(self).blocks@[handle as int] is Some,
        ensures
            final(self).wf(),
            final(self).blocks@ == old(self).blocks@.update(handle as int, None),
            r as u64 == spec_header(old(self).blocks@[handle as int]->0@),
            r == old(self).blocks@[handle as int]->0@.len(),
    {
        let size = match &self.blocks[handle] {
            Some(b) => b.stored_size(),
            None => vstd::pervasive::unreached(),
        };
        self.blocks.set(handle, None);
        size
    }

    /// The native library writing into a block it was handed: payload
    /// byte `i` of that block changes and nothing else does — in
    /// particular no adjacent block and no size header.
    pub fn write_payload(&mut self, handle: usize, i: usize, b: u8)
        requires
            old(self).wf(),
            handle < old(self).blocks@.len(),
            old(self).blocks@[handle as int] is Some,
            i < old(self).blocks@[handle as int]->0@.len() - HEADER_SIZE,
        ensures
            final(self).wf(),
            final(self).blocks@.len() == old(self).blocks@.len(),
            forall|j: int|
                0 <= j < old(self).blocks@.len() && j != handle ==> final(self).blocks@[j]
                    == #[trigger] old(self).blocks@[j],
            final(self).blocks@[handle as int] is Some,
            final(self).blocks@[handle as int]->0@ == old(self).blocks@[handle as int]->0@.update(
                HEADER_SIZE + i,
                b,
            ),
            spec_header(final(self).blocks@[handle as int]->0@) == spec_header(
                old(self).blocks@[handle as int]->0@,
            ),
    {
        match &mut self.blocks[handle] {
            Some(b_ref) => b_ref.write_payload(i, b),
            None => vstd::pervasive::unreached(),
        }
    }
}

} // verus!
