//! A guest-to-host marshaling layer for a zlib host module.
//!
//! A sandboxed guest addresses its own flat linear memory with 32-bit
//! offsets, while the native zlib library expects host pointers and
//! host-width integers.  This crate holds the verified core of that
//! boundary: bounds-checked address translation, the size-header
//! arithmetic of the allocator shim, the narrow-pointer control-record
//! marshaling, the checksum functions, and the call adapters with their
//! signature checks.  The raw-pointer plumbing that hands real guest
//! memory to these functions lives outside the verified library.

pub mod errors;
pub mod memory;
pub mod translate;
pub mod alloc_shim;
pub mod checksum;
pub mod record;
pub mod adapter;
pub mod exports;
