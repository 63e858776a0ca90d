use wasi_zlib::adapter::{w_adler32, w_crc32, WasmVal};
use wasi_zlib::errors::MarshalError;
use wasi_zlib::memory::MemExtent;

/// A plain reference computation of the rolling Adler checksum.
fn adler_reference(seed: u32, data: &[u8]) -> u32 {
    let mut s1 = seed & 0xffff;
    let mut s2 = seed >> 16;
    for &b in data {
        s1 = (s1 + b as u32) % 65521;
        s2 = (s2 + s1) % 65521;
    }
    (s2 << 16) | s1
}

/// A plain reference computation of the reflected CRC-32.
fn crc_reference(seed: u32, data: &[u8]) -> u32 {
    let mut c = seed ^ 0xffff_ffff;
    for &b in data {
        c ^= b as u32;
        for _ in 0..8 {
            c = if c & 1 == 1 { (c >> 1) ^ 0xEDB8_8320 } else { c >> 1 };
        }
    }
    c ^ 0xffff_ffff
}

fn extent_with_hello() -> MemExtent {
    // b"hello" placed at guest address 3
    let mut bytes = vec![0u8; 16];
    bytes[3..8].copy_from_slice(b"hello");
    MemExtent::new(bytes)
}

#[test]
fn adler32_of_hello_from_running_value_one() {
    let extent = extent_with_hello();
    let args = vec![WasmVal::I32(1), WasmVal::I32(3), WasmVal::I32(5)];
    let out = w_adler32(&extent, &args).unwrap();
    // the adapter computes the checksum algorithm over exactly those bytes
    assert_eq!(out, vec![WasmVal::I32(adler_reference(1, b"hello") as i32)]);
    // known value of the rolling sum of b"hello" seeded with 1
    assert_eq!(out, vec![WasmVal::I32(0x062C_0215)]);
}

#[test]
fn adler32_does_not_mutate_guest_memory() {
    let extent = extent_with_hello();
    let args = vec![WasmVal::I32(1), WasmVal::I32(3), WasmVal::I32(5)];
    let before: Vec<u8> = (0..extent.size()).map(|i| extent.read_byte(i)).collect();
    let _ = w_adler32(&extent, &args).unwrap();
    let after: Vec<u8> = (0..extent.size()).map(|i| extent.read_byte(i)).collect();
    assert_eq!(before, after);
}

#[test]
fn crc32_of_hello_matches_reference() {
    let extent = extent_with_hello();
    let args = vec![WasmVal::I32(0), WasmVal::I32(3), WasmVal::I32(5)];
    let out = w_crc32(&extent, &args).unwrap();
    assert_eq!(out, vec![WasmVal::I32(crc_reference(0, b"hello") as i32)]);
    // known CRC-32 of b"hello"
    assert_eq!(out, vec![WasmVal::I32(0x3610_A686u32 as i32)]);
}

#[test]
fn crc32_empty_range_returns_running_value() {
    let extent = extent_with_hello();
    let args = vec![WasmVal::I32(77), WasmVal::I32(3), WasmVal::I32(0)];
    let out = w_crc32(&extent, &args).unwrap();
    assert_eq!(out, vec![WasmVal::I32(77)]);
}

#[test]
fn adler32_empty_range_returns_running_value() {
    let extent = extent_with_hello();
    let args = vec![WasmVal::I32(99), WasmVal::I32(3), WasmVal::I32(0)];
    let out = w_adler32(&extent, &args).unwrap();
    assert_eq!(out, vec![WasmVal::I32(99)]);
}

#[test]
fn checksum_signature_mismatch_beats_address_resolution() {
    let extent = extent_with_hello();
    // one argument short, and the address argument is far out of bounds:
    // the call must fail at dispatch, before any resolution is attempted
    let args = vec![WasmVal::I32(1), WasmVal::I32(1_000_000)];
    assert_eq!(w_adler32(&extent, &args), Err(MarshalError::SignatureMismatch));
    assert_eq!(w_crc32(&extent, &args), Err(MarshalError::SignatureMismatch));
}

#[test]
fn checksum_wrong_tag_is_a_signature_mismatch() {
    let extent = extent_with_hello();
    let args = vec![WasmVal::I32(1), WasmVal::I64(3), WasmVal::I32(5)];
    assert_eq!(w_adler32(&extent, &args), Err(MarshalError::SignatureMismatch));
}

#[test]
fn checksum_null_buffer_fails_null_address() {
    let extent = extent_with_hello();
    let args = vec![WasmVal::I32(1), WasmVal::I32(0), WasmVal::I32(5)];
    assert_eq!(w_adler32(&extent, &args), Err(MarshalError::NullAddress));
}

#[test]
fn checksum_buffer_beyond_extent_fails_out_of_bounds() {
    let extent = extent_with_hello(); // 16 bytes
    let args = vec![WasmVal::I32(1), WasmVal::I32(3), WasmVal::I32(14)];
    assert_eq!(w_adler32(&extent, &args), Err(MarshalError::OutOfBounds));
    // the exact boundary still succeeds
    let args = vec![WasmVal::I32(1), WasmVal::I32(3), WasmVal::I32(13)];
    assert!(w_adler32(&extent, &args).is_ok());
}
