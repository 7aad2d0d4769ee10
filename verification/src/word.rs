use vstd::prelude::*;
use vstd::arithmetic::div_mod::lemma_fundamental_div_mod_converse;

verus! {

/// The value of eight bytes read as one unsigned 64-bit big-endian word.
pub open spec fn be_word(s: Seq<u8>) -> int
    recommends
        s.len() == 8,
{
    s[0] * 0x100000000000000 + s[1] * 0x1000000000000 + s[2] * 0x10000000000 + s[3] * 0x100000000
        + s[4] * 0x1000000 + s[5] * 0x10000 + s[6] * 0x100 + s[7]
}

/// The value of eight bytes read as one unsigned 64-bit little-endian word.
pub open spec fn le_word(s: Seq<u8>) -> int
    recommends
        s.len() == 8,
{
    s[7] * 0x100000000000000 + s[6] * 0x1000000000000 + s[5] * 0x10000000000 + s[4] * 0x100000000
        + s[3] * 0x1000000 + s[2] * 0x10000 + s[1] * 0x100 + s[0]
}

/// Eight bytes under a 64-bit word have one value only: equal weighted sums
/// force equal digits, place by place.
proof fn lemma_word8_unique(
    a0: u8, a1: u8, a2: u8, a3: u8, a4: u8, a5: u8, a6: u8, a7: u8,
    b0: u8, b1: u8, b2: u8, b3: u8, b4: u8, b5: u8, b6: u8, b7: u8,
)
    requires
        a0 * 0x100000000000000 + a1 * 0x1000000000000 + a2 * 0x10000000000 + a3 * 0x100000000
            + a4 * 0x1000000 + a5 * 0x10000 + a6 * 0x100 + a7 == b0 * 0x100000000000000 + b1
            * 0x1000000000000 + b2 * 0x10000000000 + b3 * 0x100000000 + b4 * 0x1000000 + b5
            * 0x10000 + b6 * 0x100 + b7,
    ensures
        a0 == b0 && a1 == b1 && a2 == b2 && a3 == b3 && a4 == b4 && a5 == b5 && a6 == b6 && a7
            == b7,
{
    let v: int = a0 * 0x100000000000000 + a1 * 0x1000000000000 + a2 * 0x10000000000 + a3
        * 0x100000000 + a4 * 0x1000000 + a5 * 0x10000 + a6 * 0x100 + a7;
    let ra1: int = a1 * 0x1000000000000 + a2 * 0x10000000000 + a3 * 0x100000000 + a4 * 0x1000000
        + a5 * 0x10000 + a6 * 0x100 + a7;
    let rb1: int = b1 * 0x1000000000000 + b2 * 0x10000000000 + b3 * 0x100000000 + b4 * 0x1000000
        + b5 * 0x10000 + b6 * 0x100 + b7;
    lemma_fundamental_div_mod_converse(v, 0x100000000000000, a0 as int, ra1);
    lemma_fundamental_div_mod_converse(v, 0x100000000000000, b0 as int, rb1);
    let ra2: int = a2 * 0x10000000000 + a3 * 0x100000000 + a4 * 0x1000000 + a5 * 0x10000 + a6
        * 0x100 + a7;
    let rb2: int = b2 * 0x10000000000 + b3 * 0x100000000 + b4 * 0x1000000 + b5 * 0x10000 + b6
        * 0x100 + b7;
    lemma_fundamental_div_mod_converse(ra1, 0x1000000000000, a1 as int, ra2);
    lemma_fundamental_div_mod_converse(rb1, 0x1000000000000, b1 as int, rb2);
    let ra3: int = a3 * 0x100000000 + a4 * 0x1000000 + a5 * 0x10000 + a6 * 0x100 + a7;
    let rb3: int = b3 * 0x100000000 + b4 * 0x1000000 + b5 * 0x10000 + b6 * 0x100 + b7;
    lemma_fundamental_div_mod_converse(ra2, 0x10000000000, a2 as int, ra3);
    lemma_fundamental_div_mod_converse(rb2, 0x10000000000, b2 as int, rb3);
    let ra4: int = a4 * 0x1000000 + a5 * 0x10000 + a6 * 0x100 + a7;
    let rb4: int = b4 * 0x1000000 + b5 * 0x10000 + b6 * 0x100 + b7;
    lemma_fundamental_div_mod_converse(ra3, 0x100000000, a3 as int, ra4);
    lemma_fundamental_div_mod_converse(rb3, 0x100000000, b3 as int, rb4);
    let ra5: int = a5 * 0x10000 + a6 * 0x100 + a7;
    let rb5: int = b5 * 0x10000 + b6 * 0x100 + b7;
    lemma_fundamental_div_mod_converse(ra4, 0x1000000, a4 as int, ra5);
    lemma_fundamental_div_mod_converse(rb4, 0x1000000, b4 as int, rb5);
    let ra6: int = a6 * 0x100 + a7;
    let rb6: int = b6 * 0x100 + b7;
    lemma_fundamental_div_mod_converse(ra5, 0x10000, a5 as int, ra6);
    lemma_fundamental_div_mod_converse(rb5, 0x10000, b5 as int, rb6);
    lemma_fundamental_div_mod_converse(ra6, 0x100, a6 as int, a7 as int);
    lemma_fundamental_div_mod_converse(rb6, 0x100, b6 as int, b7 as int);
}

/// Two eight-byte sequences with the same big-endian value are the same bytes.
pub proof fn lemma_be_word_unique(a: Seq<u8>, b: Seq<u8>)
    requires
        a.len() == 8,
        b.len() == 8,
        be_word(a) == be_word(b),
    ensures
        a =~= b,
{
    lemma_word8_unique(
        a[0], a[1], a[2], a[3], a[4], a[5], a[6], a[7],
        b[0], b[1], b[2], b[3], b[4], b[5], b[6], b[7],
    );
}

/// Two eight-byte sequences with the same little-endian value are the same bytes.
pub proof fn lemma_le_word_unique(a: Seq<u8>, b: Seq<u8>)
    requires
        a.len() == 8,
        b.len() == 8,
        le_word(a) == le_word(b),
    ensures
        a =~= b,
{
    lemma_word8_unique(
        a[7], a[6], a[5], a[4], a[3], a[2], a[1], a[0],
        b[7], b[6], b[5], b[4], b[3], b[2], b[1], b[0],
    );
}

/// Reads the eight bytes of `b` starting at `off` as a big-endian word.
pub fn read_be_u64(b: &[u8], off: usize) -> (x: u64)
    requires
        off + 8 <= b@.len(),
    ensures
        x == be_word(b@.subrange(off as int, off as int + 8)),
{
    let n: usize = b.len();
    assert(off + 8 <= n);
    let x0 = *vstd::slice::slice_index_get(b, off) as u64;
    let x1 = *vstd::slice::slice_index_get(b, off + 1) as u64;
    let x2 = *vstd::slice::slice_index_get(b, off + 2) as u64;
    let x3 = *vstd::slice::slice_index_get(b, off + 3) as u64;
    let x4 = *vstd::slice::slice_index_get(b, off + 4) as u64;
    let x5 = *vstd::slice::slice_index_get(b, off + 5) as u64;
    let x6 = *vstd::slice::slice_index_get(b, off + 6) as u64;
    let x7 = *vstd::slice::slice_index_get(b, off + 7) as u64;
    x0 * 0x100000000000000 + x1 * 0x1000000000000 + x2 * 0x10000000000 + x3 * 0x100000000 + x4
        * 0x1000000 + x5 * 0x10000 + x6 * 0x100 + x7
}

/// Reads the eight bytes of `b` starting at `off` as a little-endian word.
pub fn read_le_u64(b: &[u8], off: usize) -> (x: u64)
    requires
        off + 8 <= b@.len(),
    ensures
        x == le_word(b@.subrange(off as int, off as int + 8)),
{
    let n: usize = b.len();
    assert(off + 8 <= n);
    let x0 = *vstd::slice::slice_index_get(b, off) as u64;
    let x1 = *vstd::slice::slice_index_get(b, off + 1) as u64;
    let x2 = *vstd::slice::slice_index_get(b, off + 2) as u64;
    let x3 = *vstd::slice::slice_index_get(b, off + 3) as u64;
    let x4 = *vstd::slice::slice_index_get(b, off + 4) as u64;
    let x5 = *vstd::slice::slice_index_get(b, off + 5) as u64;
    let x6 = *vstd::slice::slice_index_get(b, off + 6) as u64;
    let x7 = *vstd::slice::slice_index_get(b, off + 7) as u64;
    x7 * 0x100000000000000 + x6 * 0x1000000000000 + x5 * 0x10000000000 + x4 * 0x100000000 + x3
        * 0x1000000 + x2 * 0x10000 + x1 * 0x100 + x0
}

/// Appends the eight big-endian bytes of `x` to `out`.
pub fn push_be_u64(out: &mut Vec<u8>, x: u64)
    ensures
        final(out)@.len() == old(out)@.len() + 8,
        final(out)@.subrange(0, old(out)@.len() as int) == old(out)@,
        be_word(final(out)@.subrange(old(out)@.len() as int, old(out)@.len() as int + 8)) == x,
{
    let b0: u8 = (x / 0x100000000000000) as u8;
    let r0: u64 = x % 0x100000000000000;
    let b1: u8 = (r0 / 0x1000000000000) as u8;
    let r1: u64 = r0 % 0x1000000000000;
    let b2: u8 = (r1 / 0x10000000000) as u8;
    let r2: u64 = r1 % 0x10000000000;
    let b3: u8 = (r2 / 0x100000000) as u8;
    let r3: u64 = r2 % 0x100000000;
    let b4: u8 = (r3 / 0x1000000) as u8;
    let r4: u64 = r3 % 0x1000000;
    let b5: u8 = (r4 / 0x10000) as u8;
    let r5: u64 = r4 % 0x10000;
    let b6: u8 = (r5 / 0x100) as u8;
    let b7: u8 = (r5 % 0x100) as u8;
    out.push(b0);
    out.push(b1);
    out.push(b2);
    out.push(b3);
    out.push(b4);
    out.push(b5);
    out.push(b6);
    out.push(b7);
    proof {
        assert(final(out)@.subrange(0, old(out)@.len() as int) =~= old(out)@);
        let tail = final(out)@.subrange(old(out)@.len() as int, old(out)@.len() as int + 8);
        assert(tail =~= seq![b0, b1, b2, b3, b4, b5, b6, b7]);
        assert(tail[0] == b0 && tail[1] == b1 && tail[2] == b2 && tail[3] == b3 && tail[4] == b4
            && tail[5] == b5 && tail[6] == b6 && tail[7] == b7);
    }
}

/// Appends the eight little-endian bytes of `x` to `out`.
pub fn push_le_u64(out: &mut Vec<u8>, x: u64)
    ensures
        final(out)@.len() == old(out)@.len() + 8,
        final(out)@.subrange(0, old(out)@.len() as int) == old(out)@,
        le_word(final(out)@.subrange(old(out)@.len() as int, old(out)@.len() as int + 8)) == x,
{
    let b7: u8 = (x / 0x100000000000000) as u8;
    let r0: u64 = x % 0x100000000000000;
    let b6: u8 = (r0 / 0x1000000000000) as u8;
    let r1: u64 = r0 % 0x1000000000000;
    let b5: u8 = (r1 / 0x10000000000) as u8;
    let r2: u64 = r1 % 0x10000000000;
    let b4: u8 = (r2 / 0x100000000) as u8;
    let r3: u64 = r2 % 0x100000000;
    let b3: u8 = (r3 / 0x1000000) as u8;
    let r4: u64 = r3 % 0x1000000;
    let b2: u8 = (r4 / 0x10000) as u8;
    let r5: u64 = r4 % 0x10000;
    let b1: u8 = (r5 / 0x100) as u8;
    let b0: u8 = (r5 % 0x100) as u8;
    out.push(b0);
    out.push(b1);
    out.push(b2);
    out.push(b3);
    out.push(b4);
    out.push(b5);
    out.push(b6);
    out.push(b7);
    proof {
        assert(final(out)@.subrange(0, old(out)@.len() as int) =~= old(out)@);
        let tail = final(out)@.subrange(old(out)@.len() as int, old(out)@.len() as int + 8);
        assert(tail =~= seq![b0, b1, b2, b3, b4, b5, b6, b7]);
        assert(tail[0] == b0 && tail[1] == b1 && tail[2] == b2 && tail[3] == b3 && tail[4] == b4
            && tail[5] == b5 && tail[6] == b6 && tail[7] == b7);
    }
}

} // verus!
