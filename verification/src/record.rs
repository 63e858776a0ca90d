use core::marker::PhantomData;
use vstd::prelude::*;

use crate::errors::MarshalError;
use crate::memory::{spec_put_u32, spec_read_u32, MemExtent};
use crate::translate::{in_extent, resolve_nullable, resolved_ptr, HostPtr};

verus! {

/// A guest pointer: a 32-bit offset into guest linear memory, tagged
/// with the type it points at.  It is not a host pointer and is only
/// meaningful relative to one guest instance's current memory extent.
#[derive(Debug)]
pub struct Ptr<T>(pub u32, pub PhantomData<T>);

impl<T> Ptr<T> {
    pub fn new(addr: u32) -> (r: Ptr<T>)
        ensures
            r.0 == addr,
    {
        Ptr(addr, PhantomData)
    }

    /// The raw guest offset; zero is the reserved null sentinel.
    pub fn addr(&self) -> (r: u32)
        ensures
            r == self.0,
    {
        self.0
    }
}

/// Size in bytes of the guest-resident control record.
pub const RECORD_SIZE: u32 = 56;

/// Byte offsets of the record's fields, in their fixed little-endian
/// layout.  The layout is bit-exact across guest and host; reordering
/// or resizing any field would break every existing guest caller.
pub const OFF_NEXT_IN: usize = 0;

pub const OFF_AVAIL_IN: usize = 4;

pub const OFF_TOTAL_IN: usize = 8;

pub const OFF_NEXT_OUT: usize = 12;

pub const OFF_AVAIL_OUT: usize = 16;

pub const OFF_TOTAL_OUT: usize = 20;

pub const OFF_MSG: usize = 24;

pub const OFF_STATE: usize = 28;

pub const OFF_ZALLOC: usize = 32;

pub const OFF_ZFREE: usize = 36;

pub const OFF_OPAQUE: usize = 40;

pub const OFF_DATA_TYPE: usize = 44;

pub const OFF_ADLER: usize = 48;

pub const OFF_RESERVED: usize = 52;

/// The guest-visible control record: the native library's stream
/// structure as the guest must encode it, every pointer-typed field
/// held as a 32-bit guest offset instead of a host pointer.
#[derive(Debug)]
#[allow(non_camel_case_types)]
pub struct z_stream {
    pub next_in: Ptr<u8>,
    pub avail_in: i32,
    pub total_in: i32,
    pub next_out: Ptr<u8>,
    pub avail_out: i32,
    pub total_out: i32,
    pub msg: Ptr<u8>,
    pub state: Ptr<()>,
    pub zalloc: Ptr<()>,
    pub zfree: Ptr<()>,
    pub opaque: Ptr<()>,
    pub data_type: i32,
    pub adler: i32,
    pub reserved: i32,
}

/// The allocator entry points the marshaler injects into every
/// materialized record, overriding whatever the guest supplied: the
/// native library must allocate through the host-side shim.
#[derive(Clone, Copy, Debug, PartialEq, Eq, Structural)]
pub enum AllocatorEntry {
    ShimAllocate,
    ShimFree,
}

/// The native library's actual control structure, with bounds-checked
/// host pointers substituted for every guest address and host-width
/// integers for every counter.  It exists only as a transient value
/// around one native call and is never written back to guest memory as
/// a structure.
#[derive(Clone, Copy, Debug)]
#[allow(non_camel_case_types)]
pub struct host_z_stream {
    pub next_in: Option<HostPtr>,
    pub avail_in: u32,
    pub total_in: u64,
    pub next_out: Option<HostPtr>,
    pub avail_out: u32,
    pub total_out: u64,
    pub msg: Option<HostPtr>,
    pub state: Option<HostPtr>,
    pub zalloc: AllocatorEntry,
    pub zfree: AllocatorEntry,
    pub opaque: Option<HostPtr>,
    pub data_type: i32,
    pub adler: u64,
    pub reserved: u64,
}

/// Zero-extension of a guest field that the native library treats as
/// unsigned: the 32 stored bits widen with no sign extension.
pub open spec fn widen_unsigned(x: i32) -> u64 {
    (x as u32) as u64
}

/// Inverse narrowing of a native counter into a 32-bit guest field.
/// A value beyond the guest field's width saturates rather than wraps:
/// an explicit policy, since the native library's single-call usage
/// keeps counters far below that bound.
pub open spec fn narrow_counter(v: u64) -> u32 {
    if v > u32::MAX {
        u32::MAX
    } else {
        v as u32
    }
}

/// A pointer field resolves when it is null or stays inside the
/// extent for its whole access length.
pub open spec fn field_ok(mem: Seq<u8>, addr: u32, len: u32) -> bool {
    addr == 0 || in_extent(mem, addr, len)
}

/// Every pointer field of the record resolves against the extent: the
/// two buffer fields for their declared available lengths, the opaque
/// handles for a single-byte probe.
pub open spec fn fields_ok(mem: Seq<u8>, rec: z_stream) -> bool {
    &&& field_ok(mem, rec.next_in.0, rec.avail_in as u32)
    &&& field_ok(mem, rec.next_out.0, rec.avail_out as u32)
    &&& field_ok(mem, rec.msg.0, 1)
    &&& field_ok(mem, rec.state.0, 1)
    &&& field_ok(mem, rec.opaque.0, 1)
}

/// The host pointer a nullable field materializes to.
pub open spec fn spec_opt_ptr(addr: u32, len: u32) -> Option<HostPtr> {
    if addr == 0 {
        None
    } else {
        Some(resolved_ptr(addr, len))
    }
}

/// The host-native record a guest record materializes to, once every
/// field has been checked.
pub open spec fn spec_materialize(rec: z_stream) -> host_z_stream {
    host_z_stream {
        next_in: spec_opt_ptr(rec.next_in.0, rec.avail_in as u32),
        avail_in: rec.avail_in as u32,
        total_in: widen_unsigned(rec.total_in),
        next_out: spec_opt_ptr(rec.next_out.0, rec.avail_out as u32),
        avail_out: rec.avail_out as u32,
        total_out: widen_unsigned(rec.total_out),
        msg: spec_opt_ptr(rec.msg.0, 1),
        state: spec_opt_ptr(rec.state.0, 1),
        zalloc: AllocatorEntry::ShimAllocate,
        zfree: AllocatorEntry::ShimFree,
        opaque: spec_opt_ptr(rec.opaque.0, 1),
        data_type: rec.data_type,
        adler: widen_unsigned(rec.adler),
        reserved: widen_unsigned(rec.reserved),
    }
}

/// `rec` holds exactly the field values stored little-endian in the
/// record bytes at `addr`.
pub open spec fn is_parsed(mem: Seq<u8>, addr: int, rec: z_stream) -> bool {
    &&& rec.next_in.0 == spec_read_u32(mem, addr + OFF_NEXT_IN)
    &&& rec.avail_in == spec_read_u32(mem, addr + OFF_AVAIL_IN) as i32
    &&& rec.total_in == spec_read_u32(mem, addr + OFF_TOTAL_IN) as i32
    &&& rec.next_out.0 == spec_read_u32(mem, addr + OFF_NEXT_OUT)
    &&& rec.avail_out == spec_read_u32(mem, addr + OFF_AVAIL_OUT) as i32
    &&& rec.total_out == spec_read_u32(mem, addr + OFF_TOTAL_OUT) as i32
    &&& rec.msg.0 == spec_read_u32(mem, addr + OFF_MSG)
    &&& rec.state.0 == spec_read_u32(mem, addr + OFF_STATE)
    &&& rec.zalloc.0 == spec_read_u32(mem, addr + OFF_ZALLOC)
    &&& rec.zfree.0 == spec_read_u32(mem, addr + OFF_ZFREE)
    &&& rec.opaque.0 == spec_read_u32(mem, addr + OFF_OPAQUE)
    &&& rec.data_type == spec_read_u32(mem, addr + OFF_DATA_TYPE) as i32
    &&& rec.adler == spec_read_u32(mem, addr + OFF_ADLER) as i32
    &&& rec.reserved == spec_read_u32(mem, addr + OFF_RESERVED) as i32
}

/// `fields_ok`, stated directly over the record bytes at `addr`.
pub open spec fn fields_ok_at(mem: Seq<u8>, addr: int) -> bool {
    &&& field_ok(mem, spec_read_u32(mem, addr + OFF_NEXT_IN), spec_read_u32(mem, addr + OFF_AVAIL_IN))
    &&& field_ok(
        mem,
        spec_read_u32(mem, addr + OFF_NEXT_OUT),
        spec_read_u32(mem, addr + OFF_AVAIL_OUT),
    )
    &&& field_ok(mem, spec_read_u32(mem, addr + OFF_MSG), 1)
    &&& field_ok(mem, spec_read_u32(mem, addr + OFF_STATE), 1)
    &&& field_ok(mem, spec_read_u32(mem, addr + OFF_OPAQUE), 1)
}

/// A record parsed from the bytes at `addr` has resolvable fields
/// exactly when the bytes say so.
pub proof fn lemma_fields_ok_at(mem: Seq<u8>, addr: int, rec: z_stream)
    requires
        is_parsed(mem, addr, rec),
    ensures
        fields_ok(mem, rec) <==> fields_ok_at(mem, addr),
{
    lemma_u32_i32_roundtrip(spec_read_u32(mem, addr + OFF_AVAIL_IN));
    lemma_u32_i32_roundtrip(spec_read_u32(mem, addr + OFF_AVAIL_OUT));
}

impl z_stream {
    /// Reads the record out of guest memory at a resolved pointer,
    /// field by field, little-endian — never by reinterpreting raw
    /// bytes, since the two layouts are not bit-compatible.
    pub fn read_from(extent: &MemExtent, p: &HostPtr) -> (r: z_stream)
        requires
            p.valid_for(extent@),
            p.len >= RECORD_SIZE,
        ensures
            is_parsed(extent@, p.addr as int, r),
    {
        let n = extent.size();
        z_stream {
            next_in: Ptr::new(extent.read_u32_le(p.addr + OFF_NEXT_IN)),
            avail_in: extent.read_u32_le(p.addr + OFF_AVAIL_IN) as i32,
            total_in: extent.read_u32_le(p.addr + OFF_TOTAL_IN) as i32,
            next_out: Ptr::new(extent.read_u32_le(p.addr + OFF_NEXT_OUT)),
            avail_out: extent.read_u32_le(p.addr + OFF_AVAIL_OUT) as i32,
            total_out: extent.read_u32_le(p.addr + OFF_TOTAL_OUT) as i32,
            msg: Ptr::new(extent.read_u32_le(p.addr + OFF_MSG)),
            state: Ptr::new(extent.read_u32_le(p.addr + OFF_STATE)),
            zalloc: Ptr::new(extent.read_u32_le(p.addr + OFF_ZALLOC)),
            zfree: Ptr::new(extent.read_u32_le(p.addr + OFF_ZFREE)),
            opaque: Ptr::new(extent.read_u32_le(p.addr + OFF_OPAQUE)),
            data_type: extent.read_u32_le(p.addr + OFF_DATA_TYPE) as i32,
            adler: extent.read_u32_le(p.addr + OFF_ADLER) as i32,
            reserved: extent.read_u32_le(p.addr + OFF_RESERVED) as i32,
        }
    }

    /// Materializes the host-native record: resolves each non-null
    /// pointer field through the address translator (a null guest
    /// address maps to a null host pointer with no translation at
    /// all), zero-extends the unsigned counters, and injects the
    /// allocator shim's entry points unconditionally.  Fails with the
    /// translator's error for the first non-null field that does not
    /// resolve; the native call must never see a partially valid
    /// record.
    pub fn to_native(&self, extent: &MemExtent) -> (r: Result<host_z_stream, MarshalError>)
        ensures
            r is Ok <==> fields_ok(extent@, *self),
            r is Ok ==> r->Ok_0 == spec_materialize(*self),
            r is Err ==> r->Err_0 == MarshalError::OutOfBounds,
    {
        let next_in = match resolve_nullable(extent, self.next_in.addr(), self.avail_in as u32) {
            Ok(p) => p,
            Err(e) => {
                return Err(e);
            },
        };
        let next_out = match resolve_nullable(extent, self.next_out.addr(), self.avail_out as u32) {
            Ok(p) => p,
            Err(e) => {
                return Err(e);
            },
        };
        let msg = match resolve_nullable(extent, self.msg.addr(), 1) {
            Ok(p) => p,
            Err(e) => {
                return Err(e);
            },
        };
        let state = match resolve_nullable(extent, self.state.addr(), 1) {
            Ok(p) => p,
            Err(e) => {
                return Err(e);
            },
        };
        let opaque = match resolve_nullable(extent, self.opaque.addr(), 1) {
            Ok(p) => p,
            Err(e) => {
                return Err(e);
            },
        };
        Ok(
            host_z_stream {
                next_in,
                avail_in: self.avail_in as u32,
                total_in: (self.total_in as u32) as u64,
                next_out,
                avail_out: self.avail_out as u32,
                total_out: (self.total_out as u32) as u64,
                msg,
                state,
                zalloc: AllocatorEntry::ShimAllocate,
                zfree: AllocatorEntry::ShimFree,
                opaque,
                data_type: self.data_type,
                adler: (self.adler as u32) as u64,
                reserved: (self.reserved as u32) as u64,
            },
        )
    }
}

/// The guest record's bytes after the post-call copy-back: the six
/// scalar fields the native library may have moved, narrowed back into
/// their 32-bit slots; every other byte untouched.
pub open spec fn spec_write_back(b: Seq<u8>, addr: int, h: host_z_stream) -> Seq<u8> {
    let b1 = spec_put_u32(b, addr + OFF_AVAIL_IN, h.avail_in);
    let b2 = spec_put_u32(b1, addr + OFF_TOTAL_IN, narrow_counter(h.total_in));
    let b3 = spec_put_u32(b2, addr + OFF_AVAIL_OUT, h.avail_out);
    let b4 = spec_put_u32(b3, addr + OFF_TOTAL_OUT, narrow_counter(h.total_out));
    let b5 = spec_put_u32(b4, addr + OFF_DATA_TYPE, h.data_type as u32);
    spec_put_u32(b5, addr + OFF_ADLER, narrow_counter(h.adler))
}

/// Saturating narrow of a native counter, as executable code.
pub fn narrow_counter_exec(v: u64) -> (r: u32)
    ensures
        r == narrow_counter(v),
{
    if v > u32::MAX as u64 {
        u32::MAX
    } else {
        v as u32
    }
}

/// Copies the mutated scalar fields of a host-native record back into
/// the guest record after the native call: the post-call half of the
/// marshaling obligation.  Pointer fields, the allocator fields and
/// the reserved field are never written back.
pub fn write_back(extent: &mut MemExtent, p: &HostPtr, h: &host_z_stream)
    requires
        p.valid_for(old(extent)@),
        p.len >= RECORD_SIZE,
    ensures
        final(extent)@ == spec_write_back(old(extent)@, p.addr as int, *h),
        final(extent)@.len() == old(extent)@.len(),
{
    let n = extent.size();
    extent.write_u32_le(p.addr + OFF_AVAIL_IN, h.avail_in);
    extent.write_u32_le(p.addr + OFF_TOTAL_IN, narrow_counter_exec(h.total_in));
    extent.write_u32_le(p.addr + OFF_AVAIL_OUT, h.avail_out);
    extent.write_u32_le(p.addr + OFF_TOTAL_OUT, narrow_counter_exec(h.total_out));
    extent.write_u32_le(p.addr + OFF_DATA_TYPE, h.data_type as u32);
    extent.write_u32_le(p.addr + OFF_ADLER, narrow_counter_exec(h.adler));
}

/// A 32-bit value reinterpreted signed and back is itself; widened
/// unsigned it stays within the narrow range, so narrowing recovers it.
pub proof fn lemma_u32_i32_roundtrip(x: u32)
    ensures
        (x as i32) as u32 == x,
        widen_unsigned(x as i32) == x as u64,
        narrow_counter(widen_unsigned(x as i32)) == x,
{
    assert((x as i32) as u32 == x) by (bit_vector);
    assert(((x as i32) as u32) as u64 <= u32::MAX as u64) by (bit_vector);
}

proof fn lemma_put_identity(b: Seq<u8>, off: int)
    requires
        0 <= off,
        off + 4 <= b.len(),
    ensures
        spec_put_u32(b, off, spec_read_u32(b, off)) == b,
{
    crate::memory::lemma_le_bytes_of_u32(b[off], b[off + 1], b[off + 2], b[off + 3]);
    assert(spec_put_u32(b, off, spec_read_u32(b, off)) =~= b);
}

/// Law: the marshaling round trip is lossless.  If the scalar fields
/// of a host-native record are exactly what materializing the guest
/// record at `addr` produced — as after a native call that moved
/// nothing — then copying them back leaves every byte of guest memory
/// identical, the unmutated fields included.
pub proof fn lemma_write_back_roundtrip(b: Seq<u8>, addr: int, h: host_z_stream)
    requires
        0 <= addr,
        addr + RECORD_SIZE <= b.len(),
        h.avail_in == spec_read_u32(b, addr + OFF_AVAIL_IN),
        h.total_in == widen_unsigned(spec_read_u32(b, addr + OFF_TOTAL_IN) as i32),
        h.avail_out == spec_read_u32(b, addr + OFF_AVAIL_OUT),
        h.total_out == widen_unsigned(spec_read_u32(b, addr + OFF_TOTAL_OUT) as i32),
        h.data_type == spec_read_u32(b, addr + OFF_DATA_TYPE) as i32,
        h.adler == widen_unsigned(spec_read_u32(b, addr + OFF_ADLER) as i32),
    ensures
        spec_write_back(b, addr, h) == b,
{
    lemma_u32_i32_roundtrip(spec_read_u32(b, addr + OFF_TOTAL_IN));
    lemma_u32_i32_roundtrip(spec_read_u32(b, addr + OFF_TOTAL_OUT));
    lemma_u32_i32_roundtrip(spec_read_u32(b, addr + OFF_DATA_TYPE));
    lemma_u32_i32_roundtrip(spec_read_u32(b, addr + OFF_ADLER));
    lemma_put_identity(b, addr + OFF_AVAIL_IN);
    lemma_put_identity(b, addr + OFF_TOTAL_IN);
    lemma_put_identity(b, addr + OFF_AVAIL_OUT);
    lemma_put_identity(b, addr + OFF_TOTAL_OUT);
    lemma_put_identity(b, addr + OFF_DATA_TYPE);
    lemma_put_identity(b, addr + OFF_ADLER);
}

} // verus!
