use vstd::prelude::*;

use crate::errors::MarshalError;
use crate::memory::MemExtent;

verus! {

/// A bounds-checked view into the guest memory extent: the host-side
/// stand-in for a dereferenceable pointer.  `addr` is the validated
/// byte offset and `len` the number of bytes the holder may access.
/// A `HostPtr` is meaningful only for the extent it was resolved
/// against, and only for the duration of that one call.
#[derive(Clone, Copy, Debug, PartialEq, Eq, Structural)]
pub struct HostPtr {
    pub addr: usize,
    pub len: usize,
}

/// A guest address plus an access length stays inside the extent.
pub open spec fn in_extent(mem: Seq<u8>, offset: u32, min_len: u32) -> bool {
    offset as int + min_len as int <= mem.len()
}

/// The pointer `resolve` hands out for a valid offset.
pub open spec fn resolved_ptr(offset: u32, min_len: u32) -> HostPtr {
    HostPtr { addr: offset as usize, len: min_len as usize }
}

impl HostPtr {
    /// The pointer addresses at least `self.len` bytes of `mem`.
    pub open spec fn valid_for(&self, mem: Seq<u8>) -> bool {
        self.addr + self.len <= mem.len()
    }
}

/// Converts a guest offset and an intended access length into a
/// bounds-checked host pointer.  This is the single point where
/// guest-controlled integers are validated before guest memory is
/// touched; address zero is the reserved null sentinel and is refused
/// here.  Read-only: nothing is cached across calls, since the extent
/// may move or resize between calls.
pub fn resolve(extent: &MemExtent, offset: u32, min_len: u32) -> (r: Result<
    HostPtr,
    MarshalError,
>)
    ensures
        r is Ok <==> offset != 0 && in_extent(extent@, offset, min_len),
        offset == 0 ==> r == Err::<HostPtr, MarshalError>(MarshalError::NullAddress),
        offset != 0 && !in_extent(extent@, offset, min_len) ==> r == Err::<HostPtr, MarshalError>(
            MarshalError::OutOfBounds,
        ),
        r is Ok ==> r == Ok::<HostPtr, MarshalError>(resolved_ptr(offset, min_len)),
        r is Ok ==> r->Ok_0.valid_for(extent@),
{
    if offset == 0 {
        return Err(MarshalError::NullAddress);
    }
    let size = extent.size();
    if (offset as u64 + min_len as u64) > size as u64 {
        return Err(MarshalError::OutOfBounds);
    }
    Ok(HostPtr { addr: offset as usize, len: min_len as usize })
}

/// Like `resolve`, but for a call site where the guest may pass the
/// null sentinel: address zero maps to no pointer at all, without any
/// translation, and only a non-null out-of-range offset is an error.
pub fn resolve_nullable(extent: &MemExtent, offset: u32, min_len: u32) -> (r: Result<
    Option<HostPtr>,
    MarshalError,
>)
    ensures
        offset == 0 ==> r == Ok::<Option<HostPtr>, MarshalError>(None),
        offset != 0 && !in_extent(extent@, offset, min_len) ==> r == Err::<
            Option<HostPtr>,
            MarshalError,
        >(MarshalError::OutOfBounds),
        offset != 0 && in_extent(extent@, offset, min_len) ==> r == Ok::<
            Option<HostPtr>,
            MarshalError,
        >(Some(resolved_ptr(offset, min_len))),
{
    if offset == 0 {
        return Ok(None);
    }
    match resolve(extent, offset, min_len) {
        Ok(p) => Ok(Some(p)),
        Err(e) => Err(e),
    }
}

/// Reads byte `i` of the region a resolved pointer covers.  The bytes
/// seen through a resolved pointer are exactly the bytes of the
/// backing extent at the resolved offset.
pub fn read_through(extent: &MemExtent, p: &HostPtr, i: usize) -> (r: u8)
    requires
        p.valid_for(extent@),
        i < p.len,
    ensures
        r == extent@[p.addr + i],
{
    let n = extent.size();
    extent.read_byte(p.addr + i)
}

/// Writes byte `i` of the region a resolved pointer covers; no byte
/// outside the resolved region is changed.
pub fn write_through(extent: &mut MemExtent, p: &HostPtr, i: usize, b: u8)
    requires
        p.valid_for(old(extent)@),
        i < p.len,
    ensures
        final(extent)@ == old(extent)@.update(p.addr + i, b),
{
    let n = extent.size();
    extent.write_byte(p.addr + i, b);
}

} // verus!
