use vstd::prelude::*;

verus! {

/// The guest's linear memory as this layer sees it during one call: a
/// contiguous byte range whose size is fixed for the duration of the
/// call.  The host runtime owns the real memory; callers hand this
/// layer the bytes and take them back when the call is over.
pub struct MemExtent {
    bytes: Vec<u8>,
}

impl View for MemExtent {
    type V = Seq<u8>;

    closed spec fn view(&self) -> Seq<u8> {
        self.bytes@
    }
}

impl MemExtent {
    pub fn new(bytes: Vec<u8>) -> (r: MemExtent)
        ensures
            r@ == bytes@,
    {
        MemExtent { bytes }
    }

    pub fn into_bytes(self) -> (r: Vec<u8>)
        ensures
            r@ == self@,
    {
        self.bytes
    }

    pub fn size(&self) -> (r: usize)
        ensures
            r == self@.len(),
    {
        self.bytes.len()
    }

    pub fn read_byte(&self, i: usize) -> (r: u8)
        requires
            i < self@.len(),
        ensures
            r == self@[i as int],
    {
        self.bytes[i]
    }

    pub fn write_byte(&mut self, i: usize, b: u8)
        requires
            i < old(self)@.len(),
        ensures
            final(self)@ == old(self)@.update(i as int, b),
    {
        self.bytes.set(i, b);
    }

    /// Reads one little-endian 32-bit field.
    pub fn read_u32_le(&self, off: usize) -> (r: u32)
        requires
            off + 4 <= self@.len(),
        ensures
            r == spec_read_u32(self@, off as int),
    {
        let n = self.bytes.len();
        let b0 = self.bytes[off];
        let b1 = self.bytes[off + 1];
        let b2 = self.bytes[off + 2];
        let b3 = self.bytes[off + 3];
        (b0 as u32) | ((b1 as u32) << 8u32) | ((b2 as u32) << 16u32) | ((b3 as u32) << 24u32)
    }

    /// Writes one little-endian 32-bit field.
    pub fn write_u32_le(&mut self, off: usize, x: u32)
        requires
            off + 4 <= old(self)@.len(),
        ensures
            final(self)@ == spec_put_u32(old(self)@, off as int, x),
            final(self)@.len() == old(self)@.len(),
    {
        proof {
            lemma_le_byte_fits(x);
        }
        let n = self.bytes.len();
        self.bytes.set(off, (x & 0xff) as u8);
        self.bytes.set(off + 1, ((x >> 8u32) & 0xff) as u8);
        self.bytes.set(off + 2, ((x >> 16u32) & 0xff) as u8);
        self.bytes.set(off + 3, ((x >> 24u32) & 0xff) as u8);
    }
}

/// The 32-bit value held by four little-endian bytes.
pub open spec fn u32_of_le(b0: u8, b1: u8, b2: u8, b3: u8) -> u32 {
    (b0 as u32) | ((b1 as u32) << 8u32) | ((b2 as u32) << 16u32) | ((b3 as u32) << 24u32)
}

/// Byte `k` (0 = least significant) of the little-endian encoding of `x`.
pub open spec fn le_byte(x: u32, k: int) -> u8 {
    if k == 0 {
        (x & 0xff) as u8
    } else if k == 1 {
        ((x >> 8u32) & 0xff) as u8
    } else if k == 2 {
        ((x >> 16u32) & 0xff) as u8
    } else {
        ((x >> 24u32) & 0xff) as u8
    }
}

/// The 32-bit field stored little-endian at `off`.
pub open spec fn spec_read_u32(b: Seq<u8>, off: int) -> u32 {
    u32_of_le(b[off], b[off + 1], b[off + 2], b[off + 3])
}

/// `b` with the 32-bit field at `off` replaced by the little-endian
/// encoding of `x`.
pub open spec fn spec_put_u32(b: Seq<u8>, off: int, x: u32) -> Seq<u8> {
    b.update(off, le_byte(x, 0)).update(off + 1, le_byte(x, 1)).update(off + 2, le_byte(x, 2))
        .update(off + 3, le_byte(x, 3))
}

proof fn lemma_le_byte_fits(x: u32)
    ensures
        x & 0xff < 256,
        (x >> 8u32) & 0xff < 256,
        (x >> 16u32) & 0xff < 256,
        (x >> 24u32) & 0xff < 256,
{
    assert(x & 0xff < 256 && (x >> 8u32) & 0xff < 256 && (x >> 16u32) & 0xff < 256 && (x
        >> 24u32) & 0xff < 256) by (bit_vector);
}

/// Decoding four little-endian bytes and re-encoding them gives the
/// same bytes back.
pub proof fn lemma_le_bytes_of_u32(b0: u8, b1: u8, b2: u8, b3: u8)
    ensures
        le_byte(u32_of_le(b0, b1, b2, b3), 0) == b0,
        le_byte(u32_of_le(b0, b1, b2, b3), 1) == b1,
        le_byte(u32_of_le(b0, b1, b2, b3), 2) == b2,
        le_byte(u32_of_le(b0, b1, b2, b3), 3) == b3,
{
    let x = u32_of_le(b0, b1, b2, b3);
    assert(((((b0 as u32) | ((b1 as u32) << 8u32) | ((b2 as u32) << 16u32) | ((b3 as u32)
        << 24u32)) & 0xff) as u8) == b0) by (bit_vector);
    assert((((((b0 as u32) | ((b1 as u32) << 8u32) | ((b2 as u32) << 16u32) | ((b3 as u32)
        << 24u32)) >> 8u32) & 0xff) as u8) == b1) by (bit_vector);
    assert((((((b0 as u32) | ((b1 as u32) << 8u32) | ((b2 as u32) << 16u32) | ((b3 as u32)
        << 24u32)) >> 16u32) & 0xff) as u8) == b2) by (bit_vector);
    assert((((((b0 as u32) | ((b1 as u32) << 8u32) | ((b2 as u32) << 16u32) | ((b3 as u32)
        << 24u32)) >> 24u32) & 0xff) as u8) == b3) by (bit_vector);
}

/// Encoding a 32-bit value little-endian and decoding the four bytes
/// gives the value back.
pub proof fn lemma_u32_le_roundtrip(x: u32)
    ensures
        u32_of_le(le_byte(x, 0), le_byte(x, 1), le_byte(x, 2), le_byte(x, 3)) == x,
{
    assert((((x & 0xff) as u8) as u32) | (((((x >> 8u32) & 0xff) as u8) as u32) << 8u32) | (((((x
        >> 16u32) & 0xff) as u8) as u32) << 16u32) | (((((x >> 24u32) & 0xff) as u8) as u32)
        << 24u32) == x) by (bit_vector);
}

} // verus!
