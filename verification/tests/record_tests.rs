use wasi_zlib::adapter::{w_deflate_init_prepare, w_deflate_init_finish, WasmVal};
use wasi_zlib::errors::MarshalError;
use wasi_zlib::memory::MemExtent;
use wasi_zlib::record::{z_stream, AllocatorEntry};
use wasi_zlib::translate::{read_through, resolve, HostPtr};

const RECORD_ADDR: u32 = 64;
const VERSION_ADDR: u32 = 1;

fn put_u32(bytes: &mut [u8], off: usize, x: u32) {
    bytes[off..off + 4].copy_from_slice(&x.to_le_bytes());
}

/// A 200-byte guest memory with a control record at `RECORD_ADDR`:
/// input buffer at 8 (4 bytes available), output buffer at 16
/// (8 bytes available), a null message field, state at 24, opaque at
/// 32, garbage in the guest's allocator fields.
fn guest_memory() -> Vec<u8> {
    let mut bytes = vec![0u8; 200];
    let r = RECORD_ADDR as usize;
    put_u32(&mut bytes, r, 8); // next_in
    put_u32(&mut bytes, r + 4, 4); // avail_in
    put_u32(&mut bytes, r + 8, 0xFFFF_FFFF); // total_in (stored -1)
    put_u32(&mut bytes, r + 12, 16); // next_out
    put_u32(&mut bytes, r + 16, 8); // avail_out
    put_u32(&mut bytes, r + 20, 7); // total_out
    put_u32(&mut bytes, r + 24, 0); // msg: null
    put_u32(&mut bytes, r + 28, 24); // state
    put_u32(&mut bytes, r + 32, 0xDEAD); // zalloc: guest-supplied garbage
    put_u32(&mut bytes, r + 36, 0xBEEF); // zfree: guest-supplied garbage
    put_u32(&mut bytes, r + 40, 32); // opaque
    put_u32(&mut bytes, r + 44, 2); // data_type
    put_u32(&mut bytes, r + 48, 1); // adler
    put_u32(&mut bytes, r + 52, 0x5151_5151); // reserved
    bytes
}

fn init_args() -> Vec<WasmVal> {
    vec![
        WasmVal::I32(RECORD_ADDR as i32),
        WasmVal::I32(6),
        WasmVal::I32(VERSION_ADDR as i32),
        WasmVal::I32(56),
    ]
}

#[test]
fn read_from_parses_every_field_little_endian() {
    let extent = MemExtent::new(guest_memory());
    let p = resolve(&extent, RECORD_ADDR, 56).unwrap();
    let rec = z_stream::read_from(&extent, &p);
    assert_eq!(rec.next_in.0, 8);
    assert_eq!(rec.avail_in, 4);
    assert_eq!(rec.total_in, -1);
    assert_eq!(rec.next_out.0, 16);
    assert_eq!(rec.avail_out, 8);
    assert_eq!(rec.total_out, 7);
    assert_eq!(rec.msg.0, 0);
    assert_eq!(rec.state.0, 24);
    assert_eq!(rec.zalloc.0, 0xDEAD);
    assert_eq!(rec.zfree.0, 0xBEEF);
    assert_eq!(rec.opaque.0, 32);
    assert_eq!(rec.data_type, 2);
    assert_eq!(rec.adler, 1);
    assert_eq!(rec.reserved, 0x5151_5151);

    // the materialized record dereferences to the same bytes as the
    // guest addresses it came from
    let host = rec.to_native(&extent).unwrap();
    let next_in = host.next_in.unwrap();
    for i in 0..next_in.len {
        assert_eq!(read_through(&extent, &next_in, i), extent.read_byte(8 + i));
    }
}

#[test]
fn prepare_materializes_host_record() {
    let extent = MemExtent::new(guest_memory());
    let prep = w_deflate_init_prepare(&extent, &init_args()).unwrap();

    assert_eq!(prep.record, HostPtr { addr: 64, len: 56 });
    assert_eq!(prep.level, 6);
    assert_eq!(prep.version, HostPtr { addr: 1, len: 1 });
    assert_eq!(prep.stream_size, 56);

    // pointer fields resolve to the guest offsets, for their lengths
    assert_eq!(prep.host.next_in, Some(HostPtr { addr: 8, len: 4 }));
    assert_eq!(prep.host.next_out, Some(HostPtr { addr: 16, len: 8 }));
    assert_eq!(prep.host.state, Some(HostPtr { addr: 24, len: 1 }));
    assert_eq!(prep.host.opaque, Some(HostPtr { addr: 32, len: 1 }));

    // scalar widening: unsigned fields zero-extend
    assert_eq!(prep.host.avail_in, 4);
    assert_eq!(prep.host.total_in, 0xFFFF_FFFFu64); // not sign-extended
    assert_eq!(prep.host.avail_out, 8);
    assert_eq!(prep.host.total_out, 7);
    assert_eq!(prep.host.data_type, 2);
    assert_eq!(prep.host.adler, 1);
    assert_eq!(prep.host.reserved, 0x5151_5151);

    // guest record round trip through the parser
    assert_eq!(prep.guest.next_in.0, 8);
    assert_eq!(prep.guest.total_in, -1);
    assert_eq!(prep.guest.zalloc.0, 0xDEAD);
}

#[test]
fn prepare_overrides_guest_allocator_fields_with_the_shim() {
    let extent = MemExtent::new(guest_memory());
    let prep = w_deflate_init_prepare(&extent, &init_args()).unwrap();
    // whatever the guest supplied, the native library gets the shim
    assert_eq!(prep.host.zalloc, AllocatorEntry::ShimAllocate);
    assert_eq!(prep.host.zfree, AllocatorEntry::ShimFree);
}

#[test]
fn null_optional_field_materializes_null_without_resolution() {
    let extent = MemExtent::new(guest_memory());
    let prep = w_deflate_init_prepare(&extent, &init_args()).unwrap();
    // msg is guest address 0: a null host pointer, no translation failure
    assert_eq!(prep.host.msg, None);
}

#[test]
fn null_mandatory_record_address_fails_null_address() {
    let extent = MemExtent::new(guest_memory());
    let args = vec![
        WasmVal::I32(0),
        WasmVal::I32(6),
        WasmVal::I32(VERSION_ADDR as i32),
        WasmVal::I32(56),
    ];
    assert_eq!(w_deflate_init_prepare(&extent, &args).unwrap_err(), MarshalError::NullAddress);
}

#[test]
fn null_version_address_fails_null_address() {
    let extent = MemExtent::new(guest_memory());
    let args = vec![
        WasmVal::I32(RECORD_ADDR as i32),
        WasmVal::I32(6),
        WasmVal::I32(0),
        WasmVal::I32(56),
    ];
    assert_eq!(w_deflate_init_prepare(&extent, &args).unwrap_err(), MarshalError::NullAddress);
}

#[test]
fn record_beyond_extent_fails_out_of_bounds() {
    let extent = MemExtent::new(guest_memory()); // 200 bytes
    let args = vec![
        WasmVal::I32(180), // 180 + 56 > 200
        WasmVal::I32(6),
        WasmVal::I32(VERSION_ADDR as i32),
        WasmVal::I32(56),
    ];
    assert_eq!(w_deflate_init_prepare(&extent, &args).unwrap_err(), MarshalError::OutOfBounds);
}

#[test]
fn record_field_beyond_extent_fails_out_of_bounds() {
    let mut bytes = guest_memory();
    // input buffer claims 4 bytes available at offset 198 of 200
    put_u32(&mut bytes, RECORD_ADDR as usize, 198);
    let extent = MemExtent::new(bytes);
    assert_eq!(w_deflate_init_prepare(&extent, &init_args()).unwrap_err(), MarshalError::OutOfBounds);
}

#[test]
fn prepare_with_one_fewer_argument_fails_signature_mismatch() {
    let extent = MemExtent::new(guest_memory());
    let args = vec![
        WasmVal::I32(RECORD_ADDR as i32),
        WasmVal::I32(6),
        WasmVal::I32(VERSION_ADDR as i32),
    ];
    assert_eq!(w_deflate_init_prepare(&extent, &args).unwrap_err(), MarshalError::SignatureMismatch);
}

#[test]
fn noop_native_call_writes_back_identical_bytes() {
    let before = guest_memory();
    let mut extent = MemExtent::new(before.clone());
    let prep = w_deflate_init_prepare(&extent, &init_args()).unwrap();
    // a native call that moved nothing: copy the same scalars back
    let out = w_deflate_init_finish(&mut extent, &prep.record, &prep.host, 0);
    assert_eq!(out, vec![WasmVal::I32(0)]);
    assert_eq!(extent.into_bytes(), before);
}

#[test]
fn mutated_counters_write_back_into_their_slots_only() {
    let before = guest_memory();
    let mut extent = MemExtent::new(before.clone());
    let prep = w_deflate_init_prepare(&extent, &init_args()).unwrap();
    let mut host = prep.host;
    host.avail_in = 0;
    host.total_in = 4;
    let out = w_deflate_init_finish(&mut extent, &prep.record, &host, -2);
    // the native status code comes back verbatim, even when negative
    assert_eq!(out, vec![WasmVal::I32(-2)]);
    let after = extent.into_bytes();
    let r = RECORD_ADDR as usize;
    let mut expected = before;
    put_u32(&mut expected, r + 4, 0);
    put_u32(&mut expected, r + 8, 4);
    assert_eq!(after, expected);
}

#[test]
fn oversized_native_counter_saturates_on_write_back() {
    let before = guest_memory();
    let mut extent = MemExtent::new(before.clone());
    let prep = w_deflate_init_prepare(&extent, &init_args()).unwrap();
    let mut host = prep.host;
    host.total_out = u64::MAX; // exceeds the guest field's width
    let _ = w_deflate_init_finish(&mut extent, &prep.record, &host, 0);
    let after = extent.into_bytes();
    let r = RECORD_ADDR as usize;
    let mut expected = before;
    put_u32(&mut expected, r + 20, u32::MAX); // saturated, not wrapped
    assert_eq!(after, expected);
}
