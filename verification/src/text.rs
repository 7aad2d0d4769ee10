use vstd::prelude::*;

verus! {

/// The character of one decimal digit.
pub open spec fn digit_char(d: nat) -> char {
    if d == 0 {
        '0'
    } else if d == 1 {
        '1'
    } else if d == 2 {
        '2'
    } else if d == 3 {
        '3'
    } else if d == 4 {
        '4'
    } else if d == 5 {
        '5'
    } else if d == 6 {
        '6'
    } else if d == 7 {
        '7'
    } else if d == 8 {
        '8'
    } else {
        '9'
    }
}

/// The decimal rendering of a natural number, most significant digit first,
/// without leading zeroes (a lone zero for zero itself).
pub open spec fn dec_seq(x: nat) -> Seq<char>
    decreases x,
{
    if x < 10 {
        seq![digit_char(x)]
    } else {
        dec_seq(x / 10) + seq![digit_char(x % 10)]
    }
}

/// The decimal rendering of an integer: a minus sign before the magnitude
/// when it is negative.
pub open spec fn dec_int_seq(x: int) -> Seq<char> {
    if x >= 0 {
        dec_seq(x as nat)
    } else {
        seq!['-'] + dec_seq((-x) as nat)
    }
}

/// The digits collected least significant first, read back as characters
/// most significant first.
spec fn rev_digit_chars(ds: Seq<u8>) -> Seq<char> {
    Seq::new(ds.len(), |i: int| digit_char(ds[ds.len() - 1 - i] as nat))
}

/// One decimal digit as text.
fn digit_str(d: u8) -> (r: &'static str)
    requires
        d < 10,
    ensures
        r@ == seq![digit_char(d as nat)],
{
    proof {
        reveal_strlit("0");
        reveal_strlit("1");
        reveal_strlit("2");
        reveal_strlit("3");
        reveal_strlit("4");
        reveal_strlit("5");
        reveal_strlit("6");
        reveal_strlit("7");
        reveal_strlit("8");
        reveal_strlit("9");
    }
    let r = match d {
        0u8 => "0",
        1u8 => "1",
        2u8 => "2",
        3u8 => "3",
        4u8 => "4",
        5u8 => "5",
        6u8 => "6",
        7u8 => "7",
        8u8 => "8",
        _ => "9",
    };
    proof {
        assert(r@ =~= seq![digit_char(d as nat)]);
    }
    r
}

/// Renders an unsigned value in decimal.
#[verifier::loop_isolation(false)]
pub fn dec_u128(x: u128) -> (r: String)
    ensures
        r@ == dec_seq(x as nat),
        r@.len() > 0,
{
    if x == 0 {
        proof {
            reveal_strlit("0");
            assert("0"@ =~= dec_seq(0));
        }
        return String::from_str("0");
    }
    let mut digits: Vec<u8> = Vec::new();
    let mut n: u128 = x;
    proof {
        assert(dec_seq(n as nat) + rev_digit_chars(digits@) =~= dec_seq(x as nat));
    }
    while n > 0
        invariant
            digits@.len() > 0 || n > 0,
            forall|j: int| 0 <= j < digits@.len() ==> digits@[j] < 10,
            (if n > 0 {
                dec_seq(n as nat)
            } else {
                Seq::<char>::empty()
            }) + rev_digit_chars(digits@) == dec_seq(x as nat),
        decreases n,
    {
        let ghost pre = digits@;
        let d: u8 = (n % 10) as u8;
        digits.push(d);
        proof {
            assert(rev_digit_chars(digits@) =~= seq![digit_char(d as nat)] + rev_digit_chars(
                pre,
            ));
            if n < 10 {
                assert(dec_seq(n as nat) =~= seq![digit_char(d as nat)]);
                assert(Seq::<char>::empty() + rev_digit_chars(digits@) =~= dec_seq(n as nat)
                    + rev_digit_chars(pre));
            } else {
                assert(dec_seq(n as nat) == dec_seq((n as nat) / 10) + seq![
                    digit_char((n as nat) % 10),
                ]);
                assert(dec_seq(((n / 10) as u128) as nat) + rev_digit_chars(digits@) =~= dec_seq(
                    n as nat,
                ) + rev_digit_chars(pre));
            }
        }
        n = n / 10;
    }
    let mut s = String::new();
    let mut i: usize = digits.len();
    proof {
        assert(s@ =~= rev_digit_chars(digits@).take(digits@.len() - i));
    }
    while i > 0
        invariant
            i <= digits@.len(),
            s@ == rev_digit_chars(digits@).take(digits@.len() - i),
        decreases i,
    {
        i = i - 1;
        let d = digits[i];
        s.append(digit_str(d));
        proof {
            assert(rev_digit_chars(digits@).take(digits@.len() - i) =~= rev_digit_chars(digits@)
                .take(digits@.len() - (i + 1)) + seq![digit_char(d as nat)]);
        }
    }
    proof {
        assert(rev_digit_chars(digits@).take(digits@.len() - 0) =~= rev_digit_chars(digits@));
        assert(s@ =~= dec_seq(x as nat));
    }
    s
}

/// Renders a signed value in decimal.
pub fn dec_i128(x: i128) -> (r: String)
    ensures
        r@ == dec_int_seq(x as int),
        r@.len() > 0,
{
    if x >= 0 {
        dec_u128(x as u128)
    } else {
        proof {
            reveal_strlit("-");
        }
        let mut s = String::from_str("-");
        let mag: u128 = ((-(x + 1)) as u128) + 1;
        let m = dec_u128(mag);
        s.append(m.as_str());
        proof {
            assert(mag as nat == (-(x as int)) as nat);
            assert("-"@ =~= seq!['-']);
            assert(s@ =~= dec_int_seq(x as int));
        }
        s
    }
}

} // verus!
