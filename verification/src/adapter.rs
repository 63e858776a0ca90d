use vstd::prelude::*;

use crate::checksum::{spec_adler32, spec_crc32};
use crate::errors::MarshalError;
use crate::memory::MemExtent;
use crate::record::{
    fields_ok_at, host_z_stream, is_parsed, spec_materialize, spec_write_back, z_stream,
    RECORD_SIZE,
};
use crate::translate::{in_extent, resolve, resolved_ptr, HostPtr};

verus! {

/// One scalar call value, tagged with the type the calling convention
/// expects.  The functions exposed here all take and return 32-bit
/// values; the wider tag exists so a mismatched call is a checkable
/// signature error, not a reinterpretation.
#[derive(Clone, Copy, Debug, PartialEq, Eq, Structural)]
pub enum WasmVal {
    I32(i32),
    I64(i64),
}

/// The type tag of one call value.
#[derive(Clone, Copy, Debug, PartialEq, Eq, Structural)]
pub enum ValTag {
    I32,
    I64,
}

impl WasmVal {
    pub open spec fn spec_tag(&self) -> ValTag {
        match self {
            WasmVal::I32(_) => ValTag::I32,
            WasmVal::I64(_) => ValTag::I64,
        }
    }

    pub fn tag(&self) -> (r: ValTag)
        ensures
            r == self.spec_tag(),
    {
        match self {
            WasmVal::I32(_) => ValTag::I32,
            WasmVal::I64(_) => ValTag::I64,
        }
    }
}

/// The checksum functions' declared signature: three 32-bit arguments
/// — a running value, a buffer address and a byte length.
pub open spec fn checksum_sig_ok(inputs: Seq<WasmVal>) -> bool {
    &&& inputs.len() == 3
    &&& inputs[0] is I32
    &&& inputs[1] is I32
    &&& inputs[2] is I32
}

/// The running checksum value of a checksum call, as the calling
/// convention reinterprets it.
pub open spec fn cs_seed(inputs: Seq<WasmVal>) -> u32 {
    inputs[0]->I32_0 as u32
}

/// The guest buffer address of a checksum call.
pub open spec fn cs_start(inputs: Seq<WasmVal>) -> u32 {
    inputs[1]->I32_0 as u32
}

/// The buffer byte length of a checksum call.
pub open spec fn cs_len(inputs: Seq<WasmVal>) -> u32 {
    inputs[2]->I32_0 as u32
}

/// The bytes a valid checksum call covers.
pub open spec fn cs_region(mem: Seq<u8>, inputs: Seq<WasmVal>) -> Seq<u8> {
    mem.subrange(cs_start(inputs) as int, cs_start(inputs) + cs_len(inputs))
}

/// A checksum call is fully valid: signature, non-null buffer, bounds.
pub open spec fn checksum_call_ok(mem: Seq<u8>, inputs: Seq<WasmVal>) -> bool {
    &&& checksum_sig_ok(inputs)
    &&& cs_start(inputs) != 0
    &&& in_extent(mem, cs_start(inputs), cs_len(inputs))
}

fn checksum_args(inputs: &Vec<WasmVal>) -> (r: Result<(u32, u32, u32), MarshalError>)
    ensures
        r is Ok <==> checksum_sig_ok(inputs@),
        r is Err ==> r == Err::<(u32, u32, u32), MarshalError>(MarshalError::SignatureMismatch),
        r is Ok ==> r->Ok_0 == (cs_seed(inputs@), cs_start(inputs@), cs_len(inputs@)),
{
    if inputs.len() != 3 {
        return Err(MarshalError::SignatureMismatch);
    }
    match (inputs[0], inputs[1], inputs[2]) {
        (WasmVal::I32(a), WasmVal::I32(s), WasmVal::I32(l)) => Ok((a as u32, s as u32, l as u32)),
        _ => Err(MarshalError::SignatureMismatch),
    }
}

/// The rolling-sum checksum adapter: validates the call's signature,
/// resolves the guest buffer through the address translator, and
/// returns the checksum of exactly those bytes continued from the
/// given running value.  No guest state is touched; a malformed call
/// fails before any address is resolved.
pub fn w_adler32(extent: &MemExtent, inputs: &Vec<WasmVal>) -> (r: Result<
    Vec<WasmVal>,
    MarshalError,
>)
    ensures
        r is Ok <==> checksum_call_ok(extent@, inputs@),
        !checksum_sig_ok(inputs@) ==> r == Err::<Vec<WasmVal>, MarshalError>(
            MarshalError::SignatureMismatch,
        ),
        checksum_sig_ok(inputs@) && cs_start(inputs@) == 0 ==> r == Err::<
            Vec<WasmVal>,
            MarshalError,
        >(MarshalError::NullAddress),
        checksum_sig_ok(inputs@) && cs_start(inputs@) != 0 && !in_extent(
            extent@,
            cs_start(inputs@),
            cs_len(inputs@),
        ) ==> r == Err::<Vec<WasmVal>, MarshalError>(MarshalError::OutOfBounds),
        r is Ok ==> r->Ok_0@ == seq![
            WasmVal::I32(spec_adler32(cs_seed(inputs@), cs_region(extent@, inputs@)) as i32),
        ],
{
    let (a, s, l) = match checksum_args(inputs) {
        Ok(t) => t,
        Err(e) => {
            return Err(e);
        },
    };
    let buf = match resolve(extent, s, l) {
        Ok(p) => p,
        Err(e) => {
            return Err(e);
        },
    };
    let sum = crate::checksum::adler32(a, extent, &buf);
    Ok(vec![WasmVal::I32(sum as i32)])
}

/// The CRC-style checksum adapter: the same marshaling as the rolling
/// sum, around the other checksum function.
pub fn w_crc32(extent: &MemExtent, inputs: &Vec<WasmVal>) -> (r: Result<Vec<WasmVal>, MarshalError>)
    ensures
        r is Ok <==> checksum_call_ok(extent@, inputs@),
        !checksum_sig_ok(inputs@) ==> r == Err::<Vec<WasmVal>, MarshalError>(
            MarshalError::SignatureMismatch,
        ),
        checksum_sig_ok(inputs@) && cs_start(inputs@) == 0 ==> r == Err::<
            Vec<WasmVal>,
            MarshalError,
        >(MarshalError::NullAddress),
        checksum_sig_ok(inputs@) && cs_start(inputs@) != 0 && !in_extent(
            extent@,
            cs_start(inputs@),
            cs_len(inputs@),
        ) ==> r == Err::<Vec<WasmVal>, MarshalError>(MarshalError::OutOfBounds),
        r is Ok ==> r->Ok_0@ == seq![
            WasmVal::I32(spec_crc32(cs_seed(inputs@), cs_region(extent@, inputs@)) as i32),
        ],
{
    let (a, s, l) = match checksum_args(inputs) {
        Ok(t) => t,
        Err(e) => {
            return Err(e);
        },
    };
    let buf = match resolve(extent, s, l) {
        Ok(p) => p,
        Err(e) => {
            return Err(e);
        },
    };
    let sum = crate::checksum::crc32(a, extent, &buf);
    Ok(vec![WasmVal::I32(sum as i32)])
}

/// The stream-initialization signature: record address, compression
/// level, version-string address, declared structure size.
pub open spec fn stream_sig_ok(inputs: Seq<WasmVal>) -> bool {
    &&& inputs.len() == 4
    &&& inputs[0] is I32
    &&& inputs[1] is I32
    &&& inputs[2] is I32
    &&& inputs[3] is I32
}

/// The guest address of the control record.
pub open spec fn st_record_addr(inputs: Seq<WasmVal>) -> u32 {
    inputs[0]->I32_0 as u32
}

/// The compression level argument.
pub open spec fn st_level(inputs: Seq<WasmVal>) -> i32 {
    inputs[1]->I32_0
}

/// The guest address of the version string.
pub open spec fn st_version_addr(inputs: Seq<WasmVal>) -> u32 {
    inputs[2]->I32_0 as u32
}

/// The declared structure size argument.
pub open spec fn st_stream_size(inputs: Seq<WasmVal>) -> i32 {
    inputs[3]->I32_0
}

/// A stream-initialization call is fully valid: signature, a non-null
/// in-bounds record, a non-null in-bounds version string, and every
/// record pointer field resolvable.
pub open spec fn stream_call_ok(mem: Seq<u8>, inputs: Seq<WasmVal>) -> bool {
    &&& stream_sig_ok(inputs)
    &&& st_record_addr(inputs) != 0
    &&& in_extent(mem, st_record_addr(inputs), RECORD_SIZE)
    &&& st_version_addr(inputs) != 0
    &&& in_extent(mem, st_version_addr(inputs), 1)
    &&& fields_ok_at(mem, st_record_addr(inputs) as int)
}

/// Everything a stream-initialization call needs marshaled before the
/// native function can run: the resolved record and version pointers,
/// the scalar arguments, the guest record as read, and the
/// materialized host-native record.
#[derive(Debug)]
pub struct PreparedStreamCall {
    pub record: HostPtr,
    pub level: i32,
    pub version: HostPtr,
    pub stream_size: i32,
    pub guest: z_stream,
    pub host: host_z_stream,
}

/// The pre-call half of the stream-initialization adapter: checks the
/// signature, resolves the record's own address (mandatory, so a null
/// is a `NullAddress` failure before any memory is touched), resolves
/// the version string, reads the guest record and materializes the
/// host-native record.  Fails before the native function is ever
/// invoked; a malformed call never partially resolves.
pub fn w_deflate_init_prepare(extent: &MemExtent, inputs: &Vec<WasmVal>) -> (r: Result<
    PreparedStreamCall,
    MarshalError,
>)
    ensures
        r is Ok <==> stream_call_ok(extent@, inputs@),
        !stream_sig_ok(inputs@) ==> r == Err::<PreparedStreamCall, MarshalError>(
            MarshalError::SignatureMismatch,
        ),
        stream_sig_ok(inputs@) && st_record_addr(inputs@) == 0 ==> r == Err::<
            PreparedStreamCall,
            MarshalError,
        >(MarshalError::NullAddress),
        stream_sig_ok(inputs@) && st_record_addr(inputs@) != 0 && !in_extent(
            extent@,
            st_record_addr(inputs@),
            RECORD_SIZE,
        ) ==> r == Err::<PreparedStreamCall, MarshalError>(MarshalError::OutOfBounds),
        r is Err ==> (r->Err_0 == MarshalError::SignatureMismatch || r->Err_0
            == MarshalError::NullAddress || r->Err_0 == MarshalError::OutOfBounds),
        r is Ok ==> {
            &&& r->Ok_0.record == resolved_ptr(st_record_addr(inputs@), RECORD_SIZE)
            &&& r->Ok_0.level == st_level(inputs@)
            &&& r->Ok_0.version == resolved_ptr(st_version_addr(inputs@), 1)
            &&& r->Ok_0.stream_size == st_stream_size(inputs@)
            &&& is_parsed(extent@, st_record_addr(inputs@) as int, r->Ok_0.guest)
            &&& r->Ok_0.host == spec_materialize(r->Ok_0.guest)
        },
{
    if inputs.len() != 4 {
        return Err(MarshalError::SignatureMismatch);
    }
    let (strm_addr, level, version_addr, stream_size) = match (
        inputs[0],
        inputs[1],
        inputs[2],
        inputs[3],
    ) {
        (WasmVal::I32(s), WasmVal::I32(lv), WasmVal::I32(v), WasmVal::I32(sz)) => (
            s as u32,
            lv,
            v as u32,
            sz,
        ),
        _ => {
            return Err(MarshalError::SignatureMismatch);
        },
    };
    let record = match resolve(extent, strm_addr, RECORD_SIZE) {
        Ok(p) => p,
        Err(e) => {
            return Err(e);
        },
    };
    let version = match resolve(extent, version_addr, 1) {
        Ok(p) => p,
        Err(e) => {
            return Err(e);
        },
    };
    let guest = z_stream::read_from(extent, &record);
    proof {
        crate::record::lemma_fields_ok_at(extent@, record.addr as int, guest);
    }
    let host = match guest.to_native(extent) {
        Ok(h) => h,
        Err(e) => {
            return Err(e);
        },
    };
    Ok(PreparedStreamCall { record, level, version, stream_size, guest, host })
}

/// The post-call half of the stream-initialization adapter: copies the
/// scalar fields the native call may have moved back into the guest
/// record, and packages the native status code verbatim as the call
/// result — status codes are opaque to this layer, never reinterpreted.
pub fn w_deflate_init_finish(
    extent: &mut MemExtent,
    record: &HostPtr,
    h: &host_z_stream,
    status: i32,
) -> (r: Vec<WasmVal>)
    requires
        record.valid_for(old(extent)@),
        record.len >= RECORD_SIZE,
    ensures
        final(extent)@ == spec_write_back(old(extent)@, record.addr as int, *h),
        final(extent)@.len() == old(extent)@.len(),
        r@ == seq![WasmVal::I32(status)],
{
    crate::record::write_back(extent, record, h);
    vec![WasmVal::I32(status)]
}

} // verus!
