use vstd::prelude::*;
use crate::text::{dec_i128, dec_int_seq, dec_seq, dec_u128};

verus! {

/// The generic structured value a header is decoded into: the closed set of
/// node kinds this module reads. Kinds it never inspects (booleans, byte
/// strings, text, ...) are carried as `Other` with their textual rendering,
/// which is all the interpreter ever needs of them.
pub enum CborItem {
    /// A map from text keys to values, in key order, keys unique.
    Dict(Vec<(String, CborItem)>),
    /// An ordered list of values.
    List(Vec<CborItem>),
    /// An integer.
    Integer(i128),
    /// A link to other content, as the canonical text form of its identifier.
    Link(String),
    /// Any other node kind, as its textual rendering.
    Other(String),
}

#[verifier::external_type_specification]
#[verifier::external_body]
pub struct ExIpld(libipld_core::ipld::Ipld);

/// What the generic CBOR decoder makes of a byte sequence: one structured
/// value, or nothing where the bytes do not parse. Only this structural
/// outcome depends on the bytes alone, so only it has a name; the diagnostic
/// text of a failed decode is not named, since the outside crate renders it
/// from an error value whose text can depend on the process and the machine.
pub uninterp spec fn cbor_decoding(bytes: Seq<u8>) -> Option<CborItem>;

/// Helper of `decode_cbor` below, with no contract of its own: it converts
/// libipld_core's `Ipld` tree into `CborItem`, variant by variant, relying on
/// the `Cid` display impl for the canonical text form of a link. It recurses
/// once per nesting level of the tree, like the decoder that produced it.
#[verifier::external_body]
fn ipld_to_item(v: &libipld_core::ipld::Ipld) -> CborItem {
    match v {
        libipld_core::ipld::Ipld::StringMap(m) => CborItem::Dict(
            m.iter().map(|(k, x)| (k.clone(), ipld_to_item(x))).collect(),
        ),
        libipld_core::ipld::Ipld::List(l) => CborItem::List(l.iter().map(ipld_to_item).collect()),
        libipld_core::ipld::Ipld::Integer(i) => CborItem::Integer(*i),
        libipld_core::ipld::Ipld::Link(c) => CborItem::Link(c.to_string()),
        other => CborItem::Other(format!("{:?}", other)),
    }
}

/// Relies on libipld_cbor's `DagCborCodec` decoding an `Ipld` value: whether
/// the bytes parse, and the value they parse to, are functions of the bytes
/// alone. The error case carries the decoder's debug rendering of its error,
/// of which nothing is promised: its text can differ between runs. Known
/// limit, inherited from the decoder's recursive descent: input nested deeply
/// enough can exhaust the stack and abort instead of returning an error.
#[verifier::external_body]
pub(crate) fn decode_cbor(data: &[u8]) -> (r: Result<CborItem, String>)
    ensures
        r is Ok <==> cbor_decoding(data@) is Some,
        r matches Ok(v) ==> cbor_decoding(data@) == Some(v),
{
    match libipld_core::codec::Codec::decode::<libipld_core::ipld::Ipld>(
        &libipld_cbor::DagCborCodec,
        data,
    ) {
        Ok(v) => Ok(ipld_to_item(&v)),
        Err(e) => Err(format!("{:?}", e)),
    }
}

/// The textual rendering `dump` produces for each kind of value.
pub open spec fn spec_dump(item: CborItem) -> Seq<char> {
    match item {
        CborItem::Dict(entries) => "Map with "@ + dec_seq(entries@.len()) + " entries"@,
        CborItem::List(elems) => "List with "@ + dec_seq(elems@.len()) + " items"@,
        CborItem::Integer(i) => "Integer("@ + dec_int_seq(i as int) + ")"@,
        CborItem::Link(cid) => "Link("@ + cid@ + ")"@,
        CborItem::Other(text) => "Value("@ + text@ + ")"@,
    }
}

impl CborItem {
    /// A short textual rendering of this value for diagnostics.
    pub fn dump(&self) -> (r: String)
        ensures
            r@ == spec_dump(*self),
            r@.len() > 0,
    {
        proof {
            reveal_strlit("Map with ");
            reveal_strlit(" entries");
            reveal_strlit("List with ");
            reveal_strlit(" items");
            reveal_strlit("Integer(");
            reveal_strlit("Link(");
            reveal_strlit("Value(");
            reveal_strlit(")");
        }
        match self {
            CborItem::Dict(entries) => {
                let mut s = String::from_str("Map with ");
                let n = dec_u128(entries.len() as u128);
                s.append(n.as_str());
                s.append(" entries");
                proof {
                    assert(s@ =~= spec_dump(*self));
                }
                s
            },
            CborItem::List(elems) => {
                let mut s = String::from_str("List with ");
                let n = dec_u128(elems.len() as u128);
                s.append(n.as_str());
                s.append(" items");
                proof {
                    assert(s@ =~= spec_dump(*self));
                }
                s
            },
            CborItem::Integer(i) => {
                let mut s = String::from_str("Integer(");
                let n = dec_i128(*i);
                s.append(n.as_str());
                s.append(")");
                proof {
                    assert(s@ =~= spec_dump(*self));
                }
                s
            },
            CborItem::Link(cid) => {
                let mut s = String::from_str("Link(");
                s.append(cid.as_str());
                s.append(")");
                proof {
                    assert(s@ =~= spec_dump(*self));
                }
                s
            },
            CborItem::Other(text) => {
                let mut s = String::from_str("Value(");
                s.append(text.as_str());
                s.append(")");
                proof {
                    assert(s@ =~= spec_dump(*self));
                }
                s
            },
        }
    }
}

/// The keys of a decoded map joined with commas, as `keys_dump` writes them.
pub open spec fn keys_join(entries: Seq<(String, CborItem)>) -> Seq<char>
    decreases entries.len(),
{
    if entries.len() == 0 {
        Seq::empty()
    } else if entries.len() == 1 {
        entries[0].0@
    } else {
        keys_join(entries.drop_last()) + ", "@ + entries.last().0@
    }
}

/// The textual rendering `keys_dump` produces: the keys, joined, bracketed.
pub open spec fn spec_keys_dump(entries: Seq<(String, CborItem)>) -> Seq<char> {
    "["@ + keys_join(entries) + "]"@
}

/// The keys of a decoded map, joined for a diagnostic message.
#[verifier::loop_isolation(false)]
pub fn keys_dump(entries: &Vec<(String, CborItem)>) -> (r: String)
    ensures
        r@ == spec_keys_dump(entries@),
        r@.len() > 0,
{
    proof {
        reveal_strlit("[");
        reveal_strlit(", ");
        reveal_strlit("]");
    }
    let mut s = String::from_str("[");
    let mut i: usize = 0;
    proof {
        assert(s@ =~= "["@ + keys_join(entries@.take(0)));
    }
    while i < entries.len()
        invariant
            i <= entries@.len(),
            s@ == "["@ + keys_join(entries@.take(i as int)),
        decreases entries@.len() - i,
    {
        if i > 0 {
            s.append(", ");
        }
        s.append(entries[i].0.as_str());
        proof {
            let t = entries@.take(i as int + 1);
            assert(t.drop_last() =~= entries@.take(i as int));
            assert(t.last() == entries@[i as int]);
            assert(s@ =~= "["@ + keys_join(t));
        }
        i = i + 1;
    }
    proof {
        assert(entries@.take(entries@.len() as int) =~= entries@);
    }
    s.append("]");
    proof {
        assert(s@ =~= spec_keys_dump(entries@));
    }
    s
}

} // verus!
