//! Percent-decoding of URL bytes.
//!
//! A `%` followed by two hexadecimal digits stands for one byte; every other
//! byte stands for itself, a malformed `%` sequence included. `+` is kept
//! literally, not turned into a space.

use vstd::prelude::*;

verus! {

/// True of the ASCII codes of `0`-`9`, `A`-`F` and `a`-`f`.
pub open spec fn is_hex_digit(b: u8) -> bool {
    (48 <= b <= 57) || (65 <= b <= 70) || (97 <= b <= 102)
}

/// The value of a hexadecimal digit given by its ASCII code.
pub open spec fn hex_value(b: u8) -> u8
    recommends
        is_hex_digit(b),
{
    if 48 <= b <= 57 {
        (b - 48) as u8
    } else if 65 <= b <= 70 {
        (b - 55) as u8
    } else {
        (b - 87) as u8
    }
}

/// The percent-decoding of a byte sequence: `%` (ASCII 37) followed by two
/// hexadecimal digits becomes the byte they spell; any other byte, a `%` of
/// a malformed sequence included, is kept as it is.
pub open spec fn pct_decoded(s: Seq<u8>) -> Seq<u8>
    decreases s.len(),
{
    if s.len() == 0 {
        Seq::empty()
    } else if s[0] == 37 && s.len() >= 3 && is_hex_digit(s[1]) && is_hex_digit(s[2]) {
        seq![(hex_value(s[1]) * 16 + hex_value(s[2])) as u8] + pct_decoded(s.skip(3))
    } else {
        seq![s[0]] + pct_decoded(s.skip(1))
    }
}

/// The value of a hexadecimal digit, or `None` for any other byte.
fn hex_digit_value(b: u8) -> (r: Option<u8>)
    ensures
        is_hex_digit(b) ==> r == Some(hex_value(b)),
        !is_hex_digit(b) ==> r is None,
{
    if 48 <= b && b <= 57 {
        Some(b - 48)
    } else if 65 <= b && b <= 70 {
        Some(b - 55)
    } else if 97 <= b && b <= 102 {
        Some(b - 87)
    } else {
        None
    }
}

/// Percent-decodes the given bytes.
pub fn percent_decode(s: &Vec<u8>) -> (r: Vec<u8>)
    ensures
        r@ == pct_decoded(s@),
{
    let mut out: Vec<u8> = Vec::new();
    let mut i: usize = 0;
    proof {
        assert(s@.skip(0) =~= s@);
        assert(Seq::<u8>::empty() + pct_decoded(s@) =~= pct_decoded(s@));
    }
    while i < s.len()
        invariant
            i <= s@.len(),
            pct_decoded(s@) == out@ + pct_decoded(s@.skip(i as int)),
        decreases s@.len() - i,
    {
        let ghost rest = s@.skip(i as int);
        let b: u8 = s[i];
        if b == 37 && s.len() - i > 2 {
            let h1: Option<u8> = hex_digit_value(s[i + 1]);
            let h2: Option<u8> = hex_digit_value(s[i + 2]);
            match (h1, h2) {
                (Some(v1), Some(v2)) => {
                    let ghost out0 = out@;
                    out.push(v1 * 16 + v2);
                    proof {
                        assert(rest[0] == 37 && rest.len() >= 3);
                        assert(rest[1] == s@[i + 1] && rest[2] == s@[i + 2]);
                        assert(pct_decoded(rest) == seq![
                            (hex_value(rest[1]) * 16 + hex_value(rest[2])) as u8,
                        ] + pct_decoded(rest.skip(3)));
                        assert(rest.skip(3) =~= s@.skip(i + 3));
                        assert(out@ + pct_decoded(s@.skip(i + 3)) =~= out0 + pct_decoded(rest));
                    }
                    i = i + 3;
                },
                _ => {
                    let ghost out0 = out@;
                    out.push(b);
                    proof {
                        assert(pct_decoded(rest) == seq![rest[0]] + pct_decoded(rest.skip(1)));
                        assert(rest.skip(1) =~= s@.skip(i + 1));
                        assert(out@ + pct_decoded(s@.skip(i + 1)) =~= out0 + pct_decoded(rest));
                    }
                    i = i + 1;
                },
            }
        } else {
            let ghost out0 = out@;
            out.push(b);
            proof {
                assert(pct_decoded(rest) == seq![rest[0]] + pct_decoded(rest.skip(1)));
                assert(rest.skip(1) =~= s@.skip(i + 1));
                assert(out@ + pct_decoded(s@.skip(i + 1)) =~= out0 + pct_decoded(rest));
            }
            i = i + 1;
        }
    }
    proof {
        assert(s@.skip(i as int) =~= Seq::empty());
    }
    out
}

} // verus!
