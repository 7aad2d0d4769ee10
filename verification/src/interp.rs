use vstd::prelude::*;
use vstd::arithmetic::div_mod::{lemma_fundamental_div_mod, lemma_fundamental_div_mod_converse};
use crate::cbor::{cbor_decoding, decode_cbor, keys_dump, spec_dump, spec_keys_dump, CborItem};
use crate::error::{DecodeCarHeaderError, ErrorData};
use crate::text::{dec_seq, dec_u128};

verus! {

/// What interpreting one decoded header comes to: the version and the roots
/// in their canonical text form, or the stable code of the failure.
pub enum Judgment {
    Accept { version: u64, roots: Seq<Seq<char>> },
    Reject { code: u16 },
}

/// The first value under `key` in a decoded map, scanning in entry order.
/// The maps the decoder hands over carry each key once, so this is plain
/// map lookup on them.
pub open spec fn spec_lookup(entries: Seq<(String, CborItem)>, key: Seq<char>) -> Option<CborItem>
    decreases entries.len(),
{
    if entries.len() == 0 {
        None
    } else if entries[0].0@ == key {
        Some(entries[0].1)
    } else {
        spec_lookup(entries.drop_first(), key)
    }
}

/// Every element of a roots list must be a link.
pub open spec fn all_links(elems: Seq<CborItem>) -> bool {
    forall|i: int| 0 <= i < elems.len() ==> elems[i] is Link
}

/// A version-1 header must carry a non-empty roots list: a roots entry that
/// is absent, or present as an empty list, does not count.
pub open spec fn lacks_roots(roots_entry: Option<CborItem>) -> bool {
    match roots_entry {
        None => true,
        Some(CborItem::List(ev)) => ev@.len() == 0,
        Some(_) => false,
    }
}

/// The canonical text forms of a list of links, in original order.
pub open spec fn link_views(elems: Seq<CborItem>) -> Seq<Seq<char>> {
    elems.map_values(|e: CborItem| e->Link_0@)
}

/// A decoded integer taken to unsigned 64-bit width, wrapping as the
/// two's-complement cast does.
pub open spec fn wrap64(i: int) -> u64 {
    (i % 0x10000000000000000) as u64
}

/// The verdict on a decoded map, given the version the entry point expects.
/// The roots shape is judged before the version entry, so a bad roots entry
/// outranks a bad version entry.
pub open spec fn judge_entries(entries: Seq<(String, CborItem)>, expected: u64) -> Judgment {
    let roots_entry = spec_lookup(entries, "roots"@);
    let version_entry = spec_lookup(entries, "version"@);
    if roots_entry matches Some(r) && !(r is List) {
        Judgment::Reject { code: 200u16 }
    } else if roots_entry matches Some(r) && r matches CborItem::List(elems) && !all_links(
        elems@,
    ) {
        Judgment::Reject { code: 100u16 }
    } else if version_entry is None {
        Judgment::Reject { code: 400u16 }
    } else if version_entry matches Some(v) && !(v is Integer) {
        Judgment::Reject { code: 300u16 }
    } else {
        let version = wrap64(version_entry->Some_0->Integer_0 as int);
        if version != expected {
            Judgment::Reject { code: 30u16 }
        } else if lacks_roots(roots_entry) && version == 1 {
            Judgment::Reject { code: 20u16 }
        } else {
            Judgment::Accept {
                version,
                roots: match roots_entry {
                    Some(CborItem::List(elems)) => link_views(elems@),
                    _ => Seq::empty(),
                },
            }
        }
    }
}

/// The position of the first list element that is not a link.
pub open spec fn first_non_link(elems: Seq<CborItem>) -> int
    decreases elems.len(),
{
    if elems.len() == 0 {
        0
    } else if !(elems[0] is Link) {
        0
    } else {
        1 + first_non_link(elems.drop_first())
    }
}

/// The first non-link stands where the links before it end.
proof fn lemma_first_non_link_at(elems: Seq<CborItem>, i: int)
    requires
        0 <= i < elems.len(),
        forall|j: int| 0 <= j < i ==> elems[j] is Link,
        !(elems[i] is Link),
    ensures
        first_non_link(elems) == i,
    decreases i,
{
    if i > 0 {
        assert forall|j: int| 0 <= j < i - 1 implies elems.drop_first()[j] is Link by {
            assert(elems[j + 1] is Link);
        }
        assert(!(elems.drop_first()[i - 1] is Link));
        lemma_first_non_link_at(elems.drop_first(), i - 1);
    }
}

/// The diagnostic text that goes with each rejection of a decoded map,
/// branch for branch as `judge_entries` rejects it.
pub open spec fn reject_message_entries(
    entries: Seq<(String, CborItem)>,
    expected: u64,
) -> Seq<char> {
    let roots_entry = spec_lookup(entries, "roots"@);
    let version_entry = spec_lookup(entries, "version"@);
    if roots_entry matches Some(r) && !(r is List) {
        "Internal error with code "@ + ("Car header, roots key expected cbor List but got "@
            + spec_dump(roots_entry->Some_0))
    } else if roots_entry matches Some(r) && r matches CborItem::List(elems) && !all_links(
        elems@,
    ) {
        let ev = roots_entry->Some_0->List_0;
        "Internal error with code "@ + (
        "Car header, roots key elements expected cbor Link but got "@ + spec_dump(
            ev@[first_non_link(ev@)],
        ))
    } else if version_entry is None {
        "Internal error with code "@ + ("Car header, expected header key version, keys: "@
            + spec_keys_dump(entries))
    } else if version_entry matches Some(v) && !(v is Integer) {
        "Internal error with code "@ + ("Car header, version key expected cbor Integer but got "@
            + spec_dump(version_entry->Some_0))
    } else {
        let version = wrap64(version_entry->Some_0->Integer_0 as int);
        if version != expected {
            "Car header version is unsupported: `"@ + dec_seq(version as nat) + "`"@
        } else if lacks_roots(roots_entry) && version == 1 {
            "Car header, no roots found."@
        } else {
            Seq::empty()
        }
    }
}

/// The diagnostic text that goes with each rejection of a decoded value,
/// branch for branch as `judge` rejects it. An accepted value has no
/// message; the message of a failed decode is not a function of the bytes
/// and is pinned only down to its fixed frame.
pub open spec fn reject_message(item: CborItem, expected: u64) -> Seq<char> {
    match item {
        CborItem::Dict(entries) => reject_message_entries(entries@, expected),
        _ => "Car header expected cbor Map but got: `"@ + spec_dump(item) + "`"@,
    }
}

/// The verdict on the decoder's outcome for one buffer: a failed decode is
/// rejected outright, a non-map shape next, and a map is judged entry by
/// entry.
pub open spec fn judge(decoded: Option<CborItem>, expected: u64) -> Judgment {
    match decoded {
        None => Judgment::Reject { code: 1u16 },
        Some(item) => match item {
            CborItem::Dict(entries) => judge_entries(entries@, expected),
            _ => Judgment::Reject { code: 10u16 },
        },
    }
}

/// Finds the first entry under `key`, as `spec_lookup` names it.
fn lookup<'a>(entries: &'a Vec<(String, CborItem)>, key: &String) -> (r: Option<&'a CborItem>)
    ensures
        match r {
            Some(item) => spec_lookup(entries@, key@) == Some(*item),
            None => spec_lookup(entries@, key@) is None,
        },
{
    let mut i: usize = 0;
    proof {
        assert(entries@.skip(0) =~= entries@);
    }
    while i < entries.len()
        invariant
            i <= entries@.len(),
            spec_lookup(entries@, key@) == spec_lookup(entries@.skip(i as int), key@),
        decreases entries@.len() - i,
    {
        if entries[i].0 == *key {
            proof {
                assert(entries@.skip(i as int)[0] == entries@[i as int]);
            }
            return Some(&entries[i].1);
        }
        proof {
            assert(entries@.skip(i as int)[0] == entries@[i as int]);
            assert(entries@.skip(i as int).drop_first() =~= entries@.skip(i as int + 1));
        }
        i = i + 1;
    }
    proof {
        assert(entries@.skip(entries@.len() as int).len() == 0);
    }
    None
}

/// Takes a decoded integer to unsigned 64-bit width, wrapping.
fn wrap_to_u64(v: i128) -> (w: u64)
    ensures
        w == wrap64(v as int),
{
    if v >= 0 {
        let u: u128 = v as u128;
        (u % 0x10000000000000000u128) as u64
    } else {
        let p: u128 = (-(v + 1)) as u128;
        let q: u128 = p % 0x10000000000000000u128;
        proof {
            let m: int = 0x10000000000000000;
            lemma_fundamental_div_mod(p as int, m);
            lemma_fundamental_div_mod_converse(
                v as int,
                m,
                -(p as int / m) - 1,
                m - 1 - (p as int % m),
            );
        }
        (0xffffffffffffffffu128 - q) as u64
    }
}

/// Interprets one header buffer against the version its entry point expects,
/// returning the version and roots of a well-formed header, or the error the
/// verdict names, with a non-empty diagnostic and its stable nonzero code.
/// The diagnostic of a buffer that did not parse at all embeds whatever the
/// decoder reported, inside a fixed frame; every other diagnostic is pinned
/// exactly.
#[verifier::loop_isolation(false)]
pub fn decode_carv_header_impl(data: &[u8], expected_version: u64) -> (r: Result<
    (u64, Vec<String>),
    ErrorData,
>)
    ensures
        (match judge(cbor_decoding(data@), expected_version) {
            Judgment::Accept { version, roots } => r matches Ok(p) && p.0 == version
                && p.1.deep_view() == roots,
            Judgment::Reject { code } => r matches Err(e) && e.error_code == code && code != 0
                && e.error@.len() > 0 && (cbor_decoding(data@) matches Some(item) ==> e.error@
                == reject_message(item, expected_version)) && (cbor_decoding(data@) is None
                ==> exists|d: Seq<char>|
                e.error@ == "Car header cbor codec error: `"@ + d + "`"@),
        }),
{
    proof {
        reveal_strlit("Car header, roots key elements expected cbor Link but got ");
        reveal_strlit("Car header, roots key expected cbor List but got ");
        reveal_strlit("Car header, version key expected cbor Integer but got ");
        reveal_strlit("Car header, expected header key version, keys: ");
        reveal_strlit("roots");
        reveal_strlit("version");
    }
    let decoded = decode_cbor(data);
    let item = match decoded {
        Ok(item) => item,
        Err(reason) => {
            let e = DecodeCarHeaderError::HeaderCborDecodingError { reason };
            let ed = e.to_error_data();
            proof {
                assert(ed.error@ == "Car header cbor codec error: `"@
                    + e->HeaderCborDecodingError_reason@ + "`"@);
            }
            return Err(ed);
        },
    };
    let entries = match &item {
        CborItem::Dict(entries) => entries,
        other => {
            let e = DecodeCarHeaderError::HeaderCborMapExpectedError { reason: other.dump() };
            return Err(e.to_error_data());
        },
    };
    let roots_key = String::from_str("roots");
    let roots_entry = lookup(entries, &roots_key);
    let roots: Option<Vec<String>> = match roots_entry {
        Some(CborItem::List(elems)) => {
            let mut out: Vec<String> = Vec::new();
            let mut i: usize = 0;
            while i < elems.len()
                invariant
                    i <= elems@.len(),
                    out@.len() == i,
                    forall|j: int|
                        0 <= j < i ==> elems@[j] is Link && out@[j]@ == elems@[j]->Link_0@,
                decreases elems@.len() - i,
            {
                match &elems[i] {
                    CborItem::Link(cid) => {
                        out.push(cid.clone());
                        i = i + 1;
                    },
                    other => {
                        let mut message = String::from_str(
                            "Car header, roots key elements expected cbor Link but got ",
                        );
                        let d = other.dump();
                        message.append(d.as_str());
                        let e = DecodeCarHeaderError::InternalError(message, 100u16);
                        proof {
                            assert(!all_links(elems@));
                            lemma_first_non_link_at(elems@, i as int);
                        }
                        return Err(e.to_error_data());
                    },
                }
            }
            proof {
                assert(all_links(elems@));
                assert(out.deep_view() =~= link_views(elems@));
            }
            Some(out)
        },
        Some(other) => {
            let mut message = String::from_str(
                "Car header, roots key expected cbor List but got ",
            );
            let d = other.dump();
            message.append(d.as_str());
            let e = DecodeCarHeaderError::InternalError(message, 200u16);
            return Err(e.to_error_data());
        },
        None => None,
    };
    let version_key = String::from_str("version");
    let version_entry = lookup(entries, &version_key);
    let version: u64 = match version_entry {
        Some(CborItem::Integer(i)) => wrap_to_u64(*i),
        Some(other) => {
            let mut message = String::from_str(
                "Car header, version key expected cbor Integer but got ",
            );
            let d = other.dump();
            message.append(d.as_str());
            let e = DecodeCarHeaderError::InternalError(message, 300u16);
            return Err(e.to_error_data());
        },
        None => {
            let mut message = String::from_str(
                "Car header, expected header key version, keys: ",
            );
            let d = keys_dump(entries);
            message.append(d.as_str());
            let e = DecodeCarHeaderError::InternalError(message, 400u16);
            return Err(e.to_error_data());
        },
    };
    if version != expected_version {
        let e = DecodeCarHeaderError::HeaderVersionNotSupportedError {
            version: dec_u128(version as u128),
        };
        return Err(e.to_error_data());
    }
    let roots_vec: Vec<String> = match roots {
        Some(r) => r,
        None => Vec::new(),
    };
    if version == 1 && roots_vec.len() == 0 {
        let e = DecodeCarHeaderError::HeaderRootsExpectedError;
        return Err(e.to_error_data());
    }
    Ok((version, roots_vec))
}

} // verus!
