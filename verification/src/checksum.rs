use vstd::prelude::*;

use crate::memory::MemExtent;
use crate::translate::HostPtr;

verus! {

/// The modulus of the rolling Adler checksum.
pub const ADLER_MOD: u32 = 65521;

/// One byte folded into a rolling Adler value: the two 16-bit sums,
/// each reduced by the modulus, repacked into one 32-bit word.
pub open spec fn adler_step(a: u32, b: u8) -> u32 {
    let s1 = ((a & 0xffff) as int + b as int) % (ADLER_MOD as int);
    let s2 = ((a >> 16u32) as int + s1) % (ADLER_MOD as int);
    (s2 * 0x10000 + s1) as u32
}

/// The rolling Adler checksum of `data`, continued from running value
/// `a`.
pub open spec fn spec_adler32(a: u32, data: Seq<u8>) -> u32
    decreases data.len(),
{
    if data.len() == 0 {
        a
    } else {
        adler_step(spec_adler32(a, data.drop_last()), data.last())
    }
}

/// One bit round of the reflected 32-bit CRC with the standard
/// polynomial.
pub open spec fn crc_bit_step(c: u32) -> u32 {
    if c & 1 == 1 {
        (c >> 1u32) ^ 0xEDB8_8320u32
    } else {
        c >> 1u32
    }
}

/// `k` bit rounds.
pub open spec fn crc_bits(c: u32, k: nat) -> u32
    decreases k,
{
    if k == 0 {
        c
    } else {
        crc_bits(crc_bit_step(c), (k - 1) as nat)
    }
}

/// One byte folded into the running (already inverted) CRC register.
pub open spec fn crc_byte_step(c: u32, b: u8) -> u32 {
    crc_bits(c ^ (b as u32), 8)
}

/// The CRC register after folding all of `data` into `c`.
pub open spec fn crc_fold(c: u32, data: Seq<u8>) -> u32
    decreases data.len(),
{
    if data.len() == 0 {
        c
    } else {
        crc_byte_step(crc_fold(c, data.drop_last()), data.last())
    }
}

/// The CRC-32 checksum of `data`, continued from running value `crc`:
/// the register is inverted on the way in and on the way out.
pub open spec fn spec_crc32(crc: u32, data: Seq<u8>) -> u32 {
    crc_fold(crc ^ 0xffff_ffffu32, data) ^ 0xffff_ffffu32
}

/// Rolling Adler checksum over the resolved buffer, continued from
/// running value `a`: exactly the bytes the pointer covers, in order.
pub fn adler32(a: u32, extent: &MemExtent, buf: &HostPtr) -> (r: u32)
    requires
        buf.valid_for(extent@),
    ensures
        r == spec_adler32(a, extent@.subrange(buf.addr as int, buf.addr + buf.len)),
{
    let ghost region = extent@.subrange(buf.addr as int, buf.addr + buf.len);
    let mut s1: u32 = a & 0xffff;
    let mut s2: u32 = a >> 16u32;
    let mut i: usize = 0;
    proof {
        assert(a & 0xffff < 0x1_0000u32 && a >> 16u32 < 0x1_0000u32) by (bit_vector);
        assert(region.take(0) =~= Seq::<u8>::empty());
        assert((((a >> 16u32) * 0x10000 + (a & 0xffff)) as u32) == a) by (bit_vector);
    }
    while i < buf.len
        invariant
            buf.valid_for(extent@),
            region == extent@.subrange(buf.addr as int, buf.addr + buf.len),
            i <= buf.len,
            s1 < 0x1_0000u32,
            s2 < 0x1_0000u32,
            spec_adler32(a, region.take(i as int)) == (s2 * 0x10000 + s1) as u32,
        decreases buf.len - i,
    {
        let b = crate::translate::read_through(extent, buf, i);
        proof {
            lemma_pack_unpack(s1, s2);
            assert(region.take(i + 1).drop_last() =~= region.take(i as int));
            assert(region.take(i + 1).last() == region[i as int]);
        }
        s1 = (s1 + b as u32) % ADLER_MOD;
        s2 = (s2 + s1) % ADLER_MOD;
        i = i + 1;
    }
    let r = (s2 << 16u32) | s1;
    proof {
        assert(region.take(buf.len as int) =~= region);
        assert((s2 << 16u32) | s1 == (s2 * 0x10000 + s1) as u32) by (bit_vector)
            requires
                s1 < 0x1_0000u32 && s2 < 0x1_0000u32,
        ;
    }
    r
}

proof fn lemma_pack_unpack(s1: u32, s2: u32)
    requires
        s1 < 0x1_0000u32,
        s2 < 0x1_0000u32,
    ensures
        ((s2 * 0x10000 + s1) as u32) & 0xffff == s1,
        ((s2 * 0x10000 + s1) as u32) >> 16u32 == s2,
{
    assert(((s2 * 0x10000 + s1) as u32) & 0xffff == s1 && ((s2 * 0x10000 + s1) as u32)
        >> 16u32 == s2) by (bit_vector)
        requires
            s1 < 0x1_0000u32 && s2 < 0x1_0000u32,
    ;
}

/// One bit round of the CRC register, as executable code.
fn crc_bit(c: u32) -> (r: u32)
    ensures
        r == crc_bit_step(c),
{
    if c & 1 == 1 {
        (c >> 1u32) ^ 0xEDB8_8320u32
    } else {
        c >> 1u32
    }
}

/// CRC-32 over the resolved buffer, continued from running value
/// `crc`: exactly the bytes the pointer covers, in order.
pub fn crc32(crc: u32, extent: &MemExtent, buf: &HostPtr) -> (r: u32)
    requires
        buf.valid_for(extent@),
    ensures
        r == spec_crc32(crc, extent@.subrange(buf.addr as int, buf.addr + buf.len)),
{
    let ghost region = extent@.subrange(buf.addr as int, buf.addr + buf.len);
    let mut c: u32 = crc ^ 0xffff_ffffu32;
    let mut i: usize = 0;
    proof {
        assert(region.take(0) =~= Seq::<u8>::empty());
    }
    while i < buf.len
        invariant
            buf.valid_for(extent@),
            region == extent@.subrange(buf.addr as int, buf.addr + buf.len),
            i <= buf.len,
            c == crc_fold(crc ^ 0xffff_ffffu32, region.take(i as int)),
        decreases buf.len - i,
    {
        let b = crate::translate::read_through(extent, buf, i);
        let c0 = c ^ (b as u32);
        let c1 = crc_bit(c0);
        let c2 = crc_bit(c1);
        let c3 = crc_bit(c2);
        let c4 = crc_bit(c3);
        let c5 = crc_bit(c4);
        let c6 = crc_bit(c5);
        let c7 = crc_bit(c6);
        let c8 = crc_bit(c7);
        proof {
            reveal_with_fuel(crc_bits, 9);
            assert(c8 == crc_byte_step(c, b));
            assert(region.take(i + 1).drop_last() =~= region.take(i as int));
            assert(region.take(i + 1).last() == region[i as int]);
        }
        c = c8;
        i = i + 1;
    }
    proof {
        assert(region.take(buf.len as int) =~= region);
    }
    c ^ 0xffff_ffffu32
}

} // verus!
