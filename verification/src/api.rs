use vstd::prelude::*;
use crate::cbor::cbor_decoding;
use crate::error::{error_data_wf, spec_message, DecodeCarHeaderError, ErrorData};
use crate::interp::{decode_carv_header_impl, judge, reject_message, Judgment};
use crate::word::{be_word, le_word, push_be_u64, push_le_u64, read_be_u64, read_le_u64};

verus! {

/// A well-formed version-1 header: the version and the roots, each root in
/// its canonical text form.
pub struct CarV1Header {
    pub version: u64,
    pub roots: Vec<String>,
}

/// What the host receives for a version-1 buffer: the header, or an all-zero
/// placeholder beside the error.
pub struct CarV1HeaderResult {
    pub data: CarV1Header,
    pub error: ErrorData,
}

/// The 128-bit characteristics bitfield of a version-2 header, as its two
/// 64-bit words in source byte order. No bit is interpreted here.
pub struct Characteristics {
    pub data: [u64; 2],
}

/// The fixed-layout fields of a version-2 header: where the embedded
/// version-1 payload lies and where an optional index begins. An offset of
/// zero is handed through as read; whether it means "absent" is the host's
/// question.
pub struct CarV2Header {
    pub characteristics: Characteristics,
    pub data_offset: u64,
    pub data_size: u64,
    pub index_offset: u64,
}

/// What the host receives for a version-2 buffer: the header, or an all-zero
/// placeholder beside the error.
pub struct CarV2HeaderResult {
    pub data: CarV2Header,
    pub error: ErrorData,
}

/// The all-zero placeholder that accompanies a version-2 error.
pub open spec fn carv2_zeroed(h: CarV2Header) -> bool {
    &&& h.characteristics.data[0] == 0
    &&& h.characteristics.data[1] == 0
    &&& h.data_offset == 0
    &&& h.data_size == 0
    &&& h.index_offset == 0
}

/// Everything `decode_carv1_header` promises of its result, as a predicate
/// of the input bytes alone: the verdict on the decoded buffer names either
/// the version and roots handed back, or the error code beside zeroed data.
pub open spec fn carv1_result_spec(bytes: Seq<u8>, r: CarV1HeaderResult) -> bool {
    &&& error_data_wf(r.error)
    &&& match judge(cbor_decoding(bytes), 1) {
        Judgment::Accept { version, roots } => {
            &&& r.error.error_code == 0
            &&& r.error.error@ == Seq::<char>::empty()
            &&& r.data.version == version
            &&& r.data.roots.deep_view() == roots
        },
        Judgment::Reject { code } => {
            &&& r.error.error_code == code
            &&& (cbor_decoding(bytes) matches Some(item) ==> r.error.error@ == reject_message(
                item,
                1,
            ))
            &&& (cbor_decoding(bytes) is None ==> exists|d: Seq<char>|
                r.error.error@ == "Car header cbor codec error: `"@ + d + "`"@)
            &&& r.data.version == 0
            &&& r.data.roots@.len() == 0
        },
    }
}

/// Everything `decode_carv2_header` promises of its result, as a predicate
/// of the input bytes alone. A buffer shorter than the 51-byte fixed region
/// is rejected outright; otherwise the embedded mini-header at bytes 1..11
/// is judged against version 2, and on acceptance the five fixed words are
/// read with their stated widths and endianness.
pub open spec fn carv2_result_spec(bytes: Seq<u8>, r: CarV2HeaderResult) -> bool {
    &&& error_data_wf(r.error)
    &&& bytes.len() < 51 ==> r.error.error_code == 500 && r.error.error@ == spec_message(
        DecodeCarHeaderError::HeaderTooShortError,
    ) && carv2_zeroed(r.data)
    &&& bytes.len() >= 51 ==> match judge(cbor_decoding(bytes.subrange(1, 11)), 2) {
        Judgment::Accept { .. } => {
            &&& r.error.error_code == 0
            &&& r.error.error@ == Seq::<char>::empty()
            &&& r.data.characteristics.data[0] == be_word(bytes.subrange(11, 19))
            &&& r.data.characteristics.data[1] == be_word(bytes.subrange(19, 27))
            &&& r.data.data_offset == le_word(bytes.subrange(27, 35))
            &&& r.data.data_size == le_word(bytes.subrange(35, 43))
            &&& r.data.index_offset == le_word(bytes.subrange(43, 51))
        },
        Judgment::Reject { code } => {
            &&& r.error.error_code == code
            &&& (cbor_decoding(bytes.subrange(1, 11)) matches Some(item) ==> r.error.error@
                == reject_message(item, 2))
            &&& (cbor_decoding(bytes.subrange(1, 11)) is None ==> exists|d: Seq<char>|
                r.error.error@ == "Car header cbor codec error: `"@ + d + "`"@)
            &&& carv2_zeroed(r.data)
        },
    }
}

/// Takes header bytes (the block-length prefix already stripped by the host)
/// and interprets them as a version-1 header.
pub fn decode_carv1_header(data: &[u8]) -> (r: CarV1HeaderResult)
    ensures
        carv1_result_spec(data@, r),
{
    match decode_carv_header_impl(data, 1) {
        Ok((ver, roots)) => {
            let empty = String::new();
            proof {
                assert(empty@ =~= Seq::<char>::empty());
            }
            CarV1HeaderResult {
                data: CarV1Header { version: ver, roots },
                error: ErrorData { error: empty, error_code: 0 },
            }
        },
        Err(err) => CarV1HeaderResult {
            data: CarV1Header { version: 0, roots: Vec::new() },
            error: err,
        },
    }
}

/// Takes the pragma-plus-fixed-header region of a version-2 archive and
/// interprets it: one unused byte, a ten-byte embedded mini-header, then
/// forty bytes of fixed fields.
pub fn decode_carv2_header(data: &[u8]) -> (r: CarV2HeaderResult)
    ensures
        carv2_result_spec(data@, r),
{
    let n: usize = data.len();
    if n < 51 {
        let e = DecodeCarHeaderError::HeaderTooShortError;
        return CarV2HeaderResult { data: zeroed_carv2(), error: e.to_error_data() };
    }
    let pragma = vstd::slice::slice_subrange(data, 1, 11);
    match decode_carv_header_impl(pragma, 2) {
        Ok(_) => {},
        Err(err) => {
            return CarV2HeaderResult { data: zeroed_carv2(), error: err };
        },
    }
    let characteristics0 = read_be_u64(data, 11);
    let characteristics1 = read_be_u64(data, 19);
    let data_offset = read_le_u64(data, 27);
    let data_size = read_le_u64(data, 35);
    let index_offset = read_le_u64(data, 43);
    let empty = String::new();
    proof {
        assert(empty@ =~= Seq::<char>::empty());
    }
    CarV2HeaderResult {
        data: CarV2Header {
            characteristics: Characteristics { data: [characteristics0, characteristics1] },
            data_offset,
            data_size,
            index_offset,
        },
        error: ErrorData { error: empty, error_code: 0 },
    }
}

/// Re-encodes the five fixed words of a version-2 header with their stated
/// widths and endianness: exactly the forty-byte layout they are read from.
pub fn encode_carv2_fields(h: &CarV2Header) -> (out: Vec<u8>)
    ensures
        out@.len() == 40,
        be_word(out@.subrange(0, 8)) == h.characteristics.data[0],
        be_word(out@.subrange(8, 16)) == h.characteristics.data[1],
        le_word(out@.subrange(16, 24)) == h.data_offset,
        le_word(out@.subrange(24, 32)) == h.data_size,
        le_word(out@.subrange(32, 40)) == h.index_offset,
{
    let mut out: Vec<u8> = Vec::new();
    push_be_u64(&mut out, h.characteristics.data[0]);
    push_be_u64(&mut out, h.characteristics.data[1]);
    let ghost g2 = out@;
    push_le_u64(&mut out, h.data_offset);
    let ghost g3 = out@;
    push_le_u64(&mut out, h.data_size);
    let ghost g4 = out@;
    push_le_u64(&mut out, h.index_offset);
    proof {
        let g5 = out@;
        assert(g5.subrange(0, 8) =~= g5.subrange(0, 32).subrange(0, 8));
        assert(g4.subrange(0, 8) =~= g4.subrange(0, 24).subrange(0, 8));
        assert(g3.subrange(0, 8) =~= g3.subrange(0, 16).subrange(0, 8));
        assert(g5.subrange(8, 16) =~= g5.subrange(0, 32).subrange(8, 16));
        assert(g4.subrange(8, 16) =~= g4.subrange(0, 24).subrange(8, 16));
        assert(g3.subrange(8, 16) =~= g3.subrange(0, 16).subrange(8, 16));
        assert(g5.subrange(16, 24) =~= g5.subrange(0, 32).subrange(16, 24));
        assert(g4.subrange(16, 24) =~= g4.subrange(0, 24).subrange(16, 24));
        assert(g5.subrange(24, 32) =~= g5.subrange(0, 32).subrange(24, 32));
    }
    out
}

/// The placeholder handed back beside every version-2 error.
fn zeroed_carv2() -> (h: CarV2Header)
    ensures
        carv2_zeroed(h),
{
    CarV2Header {
        characteristics: Characteristics { data: [0u64, 0u64] },
        data_offset: 0,
        data_size: 0,
        index_offset: 0,
    }
}

} // verus!
