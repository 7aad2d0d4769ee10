use vstd::prelude::*;
use crate::api::{
    carv1_result_spec, carv2_result_spec, CarV1HeaderResult, CarV2HeaderResult,
};
use crate::cbor::{cbor_decoding, CborItem};
use crate::interp::{
    all_links, judge, judge_entries, lacks_roots, link_views, spec_lookup, wrap64, Judgment,
};
use crate::word::{be_word, le_word, lemma_be_word_unique, lemma_le_word_unique};

verus! {

/// Bytes the generic decoder cannot parse at all are rejected with code 1,
/// whatever version was expected.
pub proof fn lemma_undecodable_rejected(bytes: Seq<u8>, expected: u64)
    requires
        cbor_decoding(bytes) is None,
    ensures
        judge(cbor_decoding(bytes), expected) == (Judgment::Reject { code: 1u16 }),
{
}

/// A decoded top-level value that is not a map is rejected with code 10,
/// whatever version was expected.
pub proof fn lemma_non_map_rejected(item: CborItem, expected: u64)
    requires
        !(item is Dict),
    ensures
        judge(Some(item), expected) == (Judgment::Reject { code: 10u16 }),
{
}

/// A `roots` entry that is not a list at all is rejected with code 200,
/// before the version is even looked at.
pub proof fn lemma_roots_wrong_kind_rejected(entries: Seq<(String, CborItem)>, expected: u64)
    requires
        spec_lookup(entries, "roots"@) matches Some(r) && !(r is List),
    ensures
        judge_entries(entries, expected) == (Judgment::Reject { code: 200u16 }),
{
}

/// A `roots` list holding an element that is not a link is rejected with
/// code 100, before the version is even looked at.
pub proof fn lemma_roots_bad_element_rejected(entries: Seq<(String, CborItem)>, expected: u64)
    requires
        spec_lookup(entries, "roots"@) matches Some(CborItem::List(ev)) && !all_links(ev@),
    ensures
        judge_entries(entries, expected) == (Judgment::Reject { code: 100u16 }),
{
}

/// The `roots` entry passes its shape check: absent, or a list of links.
pub open spec fn roots_shape_ok(entries: Seq<(String, CborItem)>) -> bool {
    match spec_lookup(entries, "roots"@) {
        Some(CborItem::List(ev)) => all_links(ev@),
        Some(_) => false,
        None => true,
    }
}

/// With the roots shape in order, a map without a `version` key is rejected
/// with code 400.
pub proof fn lemma_version_missing_rejected(entries: Seq<(String, CborItem)>, expected: u64)
    requires
        roots_shape_ok(entries),
        spec_lookup(entries, "version"@) is None,
    ensures
        judge_entries(entries, expected) == (Judgment::Reject { code: 400u16 }),
{
}

/// With the roots shape in order, a `version` entry that is not an integer
/// is rejected with code 300.
pub proof fn lemma_version_wrong_kind_rejected(entries: Seq<(String, CborItem)>, expected: u64)
    requires
        roots_shape_ok(entries),
        spec_lookup(entries, "version"@) matches Some(v) && !(v is Integer),
    ensures
        judge_entries(entries, expected) == (Judgment::Reject { code: 300u16 }),
{
}

/// With the roots shape in order, a decoded version other than the expected
/// one is rejected with code 30.
pub proof fn lemma_version_mismatch_rejected(entries: Seq<(String, CborItem)>, expected: u64)
    requires
        roots_shape_ok(entries),
        spec_lookup(entries, "version"@) matches Some(CborItem::Integer(i)) && wrap64(i as int)
            != expected,
    ensures
        judge_entries(entries, expected) == (Judgment::Reject { code: 30u16 }),
{
}

/// A version-1 map without a non-empty `roots` entry — the entry absent, or
/// present as an empty list — is rejected with code 20.
pub proof fn lemma_missing_roots_rejected(entries: Seq<(String, CborItem)>)
    requires
        lacks_roots(spec_lookup(entries, "roots"@)),
        spec_lookup(entries, "version"@) matches Some(CborItem::Integer(i)) && wrap64(i as int)
            == 1,
    ensures
        judge_entries(entries, 1) == (Judgment::Reject { code: 20u16 }),
{
}

/// A well-formed version-1 map — a non-empty `roots` list of links and an
/// integer `version` decoding to 1 — is accepted, and its roots come back in
/// their original order and number, each as the text form of its link.
pub proof fn lemma_wellformed_v1_accepted(entries: Seq<(String, CborItem)>, ev: Vec<CborItem>)
    requires
        spec_lookup(entries, "roots"@) == Some(CborItem::List(ev)),
        ev@.len() > 0,
        all_links(ev@),
        spec_lookup(entries, "version"@) matches Some(CborItem::Integer(i)) && wrap64(i as int)
            == 1,
    ensures
        judge_entries(entries, 1) == (Judgment::Accept { version: 1u64, roots: link_views(ev@) }),
        link_views(ev@).len() == ev@.len(),
        forall|j: int| 0 <= j < ev@.len() ==> link_views(ev@)[j] == ev@[j]->Link_0@,
{
}

/// A version-2 map needs no `roots` entry: with an integer `version`
/// decoding to 2 and no roots, it is accepted with an empty root list.
pub proof fn lemma_v2_roots_optional_accepted(entries: Seq<(String, CborItem)>)
    requires
        spec_lookup(entries, "roots"@) is None,
        spec_lookup(entries, "version"@) matches Some(CborItem::Integer(i)) && wrap64(i as int)
            == 2,
    ensures
        judge_entries(entries, 2) == (Judgment::Accept {
            version: 2u64,
            roots: Seq::<Seq<char>>::empty(),
        }),
{
}

/// For a buffer whose decoded form is a map with a non-empty roots list of
/// links and an integer version decoding to 1, the version-1 entry point
/// succeeds: code zero, version one, and the roots in original order and
/// number, each the text form of its link.
pub proof fn lemma_wellformed_v1_result(
    bytes: Seq<u8>,
    entries: Vec<(String, CborItem)>,
    ev: Vec<CborItem>,
    r: CarV1HeaderResult,
)
    requires
        cbor_decoding(bytes) == Some(CborItem::Dict(entries)),
        spec_lookup(entries@, "roots"@) == Some(CborItem::List(ev)),
        ev@.len() > 0,
        all_links(ev@),
        spec_lookup(entries@, "version"@) matches Some(CborItem::Integer(i)) && wrap64(i as int)
            == 1,
        carv1_result_spec(bytes, r),
    ensures
        r.error.error_code == 0,
        r.data.version == 1,
        r.data.roots.deep_view().len() == ev@.len(),
        forall|j: int| 0 <= j < ev@.len() ==> r.data.roots.deep_view()[j] == ev@[j]->Link_0@,
{
    lemma_wellformed_v1_accepted(entries@, ev);
}

/// A version-1 buffer whose decoded map carries no non-empty roots entry —
/// absent, or an empty list — fails with code 20 at the version-1 entry
/// point.
pub proof fn lemma_missing_roots_result(
    bytes: Seq<u8>,
    entries: Vec<(String, CborItem)>,
    r: CarV1HeaderResult,
)
    requires
        cbor_decoding(bytes) == Some(CborItem::Dict(entries)),
        lacks_roots(spec_lookup(entries@, "roots"@)),
        spec_lookup(entries@, "version"@) matches Some(CborItem::Integer(i)) && wrap64(i as int)
            == 1,
        carv1_result_spec(bytes, r),
    ensures
        r.error.error_code == 20,
        r.data.version == 0,
        r.data.roots@.len() == 0,
{
    lemma_missing_roots_rejected(entries@);
}

/// A buffer whose decoded map carries a version other than 1 fails with
/// code 30 at the version-1 entry point.
pub proof fn lemma_version_mismatch_result(
    bytes: Seq<u8>,
    entries: Vec<(String, CborItem)>,
    r: CarV1HeaderResult,
)
    requires
        cbor_decoding(bytes) == Some(CborItem::Dict(entries)),
        roots_shape_ok(entries@),
        spec_lookup(entries@, "version"@) matches Some(CborItem::Integer(i)) && wrap64(i as int)
            != 1,
        carv1_result_spec(bytes, r),
    ensures
        r.error.error_code == 30,
        r.data.version == 0,
{
    lemma_version_mismatch_rejected(entries@, 1);
}

/// Decoding a version-1 buffer is a pure function of its bytes: any two
/// results the contract allows for the same buffer agree on the code, the
/// version, the roots, and — except for the undecodable case, whose
/// diagnostic embeds what the outside decoder reported — the message.
pub proof fn lemma_carv1_deterministic(
    bytes: Seq<u8>,
    r1: CarV1HeaderResult,
    r2: CarV1HeaderResult,
)
    requires
        carv1_result_spec(bytes, r1),
        carv1_result_spec(bytes, r2),
    ensures
        r1.error.error_code == r2.error.error_code,
        r1.error.error_code != 1 ==> r1.error.error@ == r2.error.error@,
        r1.data.version == r2.data.version,
        r1.data.roots.deep_view() == r2.data.roots.deep_view(),
{
    match judge(cbor_decoding(bytes), 1) {
        Judgment::Accept { .. } => {},
        Judgment::Reject { .. } => {
            assert(r1.data.roots.deep_view() =~= r2.data.roots.deep_view());
        },
    }
}

/// Decoding a version-2 buffer is a pure function of its bytes: any two
/// results the contract allows for the same buffer agree on the code, on
/// every numeric field, and — except for the undecodable case, whose
/// diagnostic embeds what the outside decoder reported — on the message.
pub proof fn lemma_carv2_deterministic(
    bytes: Seq<u8>,
    r1: CarV2HeaderResult,
    r2: CarV2HeaderResult,
)
    requires
        carv2_result_spec(bytes, r1),
        carv2_result_spec(bytes, r2),
    ensures
        r1.error.error_code == r2.error.error_code,
        r1.error.error_code != 1 ==> r1.error.error@ == r2.error.error@,
        r1.data.characteristics.data[0] == r2.data.characteristics.data[0],
        r1.data.characteristics.data[1] == r2.data.characteristics.data[1],
        r1.data.data_offset == r2.data.data_offset,
        r1.data.data_size == r2.data.data_size,
        r1.data.index_offset == r2.data.index_offset,
{
}

/// Forty bytes carrying the same five words — two big-endian, three
/// little-endian — are the same bytes: re-encoding decoded fields with the
/// stated widths and endianness reproduces the original layout.
pub proof fn lemma_carv2_fields_round_trip(s: Seq<u8>, t: Seq<u8>)
    requires
        s.len() == 40,
        t.len() == 40,
        be_word(t.subrange(0, 8)) == be_word(s.subrange(0, 8)),
        be_word(t.subrange(8, 16)) == be_word(s.subrange(8, 16)),
        le_word(t.subrange(16, 24)) == le_word(s.subrange(16, 24)),
        le_word(t.subrange(24, 32)) == le_word(s.subrange(24, 32)),
        le_word(t.subrange(32, 40)) == le_word(s.subrange(32, 40)),
    ensures
        t == s,
{
    lemma_be_word_unique(t.subrange(0, 8), s.subrange(0, 8));
    lemma_be_word_unique(t.subrange(8, 16), s.subrange(8, 16));
    lemma_le_word_unique(t.subrange(16, 24), s.subrange(16, 24));
    lemma_le_word_unique(t.subrange(24, 32), s.subrange(24, 32));
    lemma_le_word_unique(t.subrange(32, 40), s.subrange(32, 40));
    assert forall|i: int| 0 <= i < 40 implies t[i] == s[i] by {
        if i < 8 {
            assert(t.subrange(0, 8)[i] == s.subrange(0, 8)[i]);
        } else if i < 16 {
            assert(t.subrange(8, 16)[i - 8] == s.subrange(8, 16)[i - 8]);
        } else if i < 24 {
            assert(t.subrange(16, 24)[i - 16] == s.subrange(16, 24)[i - 16]);
        } else if i < 32 {
            assert(t.subrange(24, 32)[i - 24] == s.subrange(24, 32)[i - 24]);
        } else {
            assert(t.subrange(32, 40)[i - 32] == s.subrange(32, 40)[i - 32]);
        }
    }
    assert(t =~= s);
}

/// A successfully decoded version-2 result, re-encoded, reproduces bytes
/// 11..51 of the buffer it came from.
pub proof fn lemma_carv2_result_round_trip(bytes: Seq<u8>, r: CarV2HeaderResult, out: Seq<u8>)
    requires
        bytes.len() >= 51,
        carv2_result_spec(bytes, r),
        r.error.error_code == 0,
        out.len() == 40,
        be_word(out.subrange(0, 8)) == r.data.characteristics.data[0],
        be_word(out.subrange(8, 16)) == r.data.characteristics.data[1],
        le_word(out.subrange(16, 24)) == r.data.data_offset,
        le_word(out.subrange(24, 32)) == r.data.data_size,
        le_word(out.subrange(32, 40)) == r.data.index_offset,
    ensures
        out == bytes.subrange(11, 51),
{
    let s = bytes.subrange(11, 51);
    assert(s.subrange(0, 8) =~= bytes.subrange(11, 19));
    assert(s.subrange(8, 16) =~= bytes.subrange(19, 27));
    assert(s.subrange(16, 24) =~= bytes.subrange(27, 35));
    assert(s.subrange(24, 32) =~= bytes.subrange(35, 43));
    assert(s.subrange(32, 40) =~= bytes.subrange(43, 51));
    lemma_carv2_fields_round_trip(s, out);
}

} // verus!
