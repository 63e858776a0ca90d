use wasi_zlib::errors::MarshalError;
use wasi_zlib::memory::MemExtent;
use wasi_zlib::translate::{read_through, resolve, resolve_nullable, write_through};

fn extent_of(bytes: Vec<u8>) -> MemExtent {
    MemExtent::new(bytes)
}

#[test]
fn resolve_valid_offset_reads_backing_bytes() {
    let bytes: Vec<u8> = vec![0, 10, 20, 30, 40, 50, 60, 70];
    let extent = extent_of(bytes.clone());
    let p = resolve(&extent, 2, 4).unwrap();
    assert_eq!(p.addr, 2);
    assert_eq!(p.len, 4);
    for i in 0..4 {
        assert_eq!(read_through(&extent, &p, i), bytes[2 + i]);
    }
}

#[test]
fn resolve_boundary_exactly_at_extent_end_succeeds() {
    let extent = extent_of(vec![0u8; 100]);
    // offset + length == extent size must succeed
    let p = resolve(&extent, 40, 60).unwrap();
    assert_eq!(p.addr, 40);
}

#[test]
fn resolve_one_past_extent_end_fails_out_of_bounds() {
    let extent = extent_of(vec![0u8; 100]);
    // offset + length == extent size + 1 must fail
    let r = resolve(&extent, 40, 61);
    assert_eq!(r, Err(MarshalError::OutOfBounds));
}

#[test]
fn resolve_null_offset_fails_null_address() {
    let extent = extent_of(vec![0u8; 100]);
    let r = resolve(&extent, 0, 1);
    assert_eq!(r, Err(MarshalError::NullAddress));
}

#[test]
fn resolve_nullable_null_offset_maps_to_no_pointer() {
    let extent = extent_of(vec![0u8; 100]);
    let r = resolve_nullable(&extent, 0, 1);
    assert_eq!(r, Ok(None));
}

#[test]
fn resolve_nullable_out_of_bounds_still_fails() {
    let extent = extent_of(vec![0u8; 8]);
    let r = resolve_nullable(&extent, 4, 5);
    assert_eq!(r, Err(MarshalError::OutOfBounds));
}

#[test]
fn write_through_changes_only_the_addressed_byte() {
    let mut extent = extent_of(vec![9u8; 16]);
    let p = resolve(&extent, 5, 3).unwrap();
    write_through(&mut extent, &p, 1, 77);
    let out = extent.into_bytes();
    for (i, b) in out.iter().enumerate() {
        if i == 6 {
            assert_eq!(*b, 77);
        } else {
            assert_eq!(*b, 9);
        }
    }
}

#[test]
fn read_u32_le_decodes_little_endian() {
    let extent = extent_of(vec![0x78, 0x56, 0x34, 0x12]);
    assert_eq!(extent.read_u32_le(0), 0x1234_5678);
}

#[test]
fn write_u32_le_encodes_little_endian() {
    let mut extent = extent_of(vec![0u8; 4]);
    extent.write_u32_le(0, 0xAABB_CCDD);
    assert_eq!(extent.into_bytes(), vec![0xDD, 0xCC, 0xBB, 0xAA]);
}
