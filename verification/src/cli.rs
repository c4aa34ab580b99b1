//! Parsing the command-line surface: the particle count.
//!
//! A malformed count is a fatal error for the caller, raised before any
//! GPU resource is created; the contract says exactly which inputs parse.

use vstd::prelude::*;

verus! {

/// The particle count used when none is given.
pub const DEFAULT_PARTICLE_COUNT: u32 = 100_000;

/// An ASCII decimal digit.
pub open spec fn is_digit(b: u8) -> bool {
    48 <= b <= 57
}

/// The value of an ASCII decimal digit.
pub open spec fn digit_val(b: u8) -> int {
    b - 48
}

/// Every byte is an ASCII decimal digit.
pub open spec fn all_digits(s: Seq<u8>) -> bool {
    forall|i: int| 0 <= i < s.len() ==> is_digit(#[trigger] s[i])
}

/// The value of a big-endian decimal digit string.
pub open spec fn dec_value(s: Seq<u8>) -> int
    decreases s.len(),
{
    if s.len() == 0 {
        0
    } else {
        dec_value(s.drop_last()) * 10 + digit_val(s.last())
    }
}

/// The input with one optional leading plus sign removed: what must then
/// remain is a digit string.
pub open spec fn digits_part(s: Seq<u8>) -> Seq<u8> {
    if s.len() > 0 && s[0] == 43 {
        s.subrange(1, s.len() as int)
    } else {
        s
    }
}

/// Appending digits to a digit string never lowers its value.
proof fn lemma_dec_value_extend(s: Seq<u8>, j: int)
    requires
        0 <= j <= s.len(),
        0 <= dec_value(s.take(j)),
        forall|k: int| j <= k < s.len() ==> is_digit(#[trigger] s[k]),
    ensures
        dec_value(s) >= dec_value(s.take(j)),
    decreases s.len() - j,
{
    if j == s.len() {
        assert(s.take(j) =~= s);
    } else {
        let t = s.take(j + 1);
        assert(t.drop_last() =~= s.take(j));
        assert(t.last() == s[j]);
        assert(dec_value(t) == dec_value(s.take(j)) * 10 + digit_val(s[j]));
        assert(dec_value(s.take(j)) * 10 >= dec_value(s.take(j))) by (nonlinear_arith)
            requires
                dec_value(s.take(j)) >= 0,
        ;
        lemma_dec_value_extend(s, j + 1);
    }
}

/// Parses a particle count from the bytes of a command-line argument.
/// Returns the value exactly when the input is a nonempty string of
/// decimal digits, with at most one leading plus sign, whose value fits;
/// every other input is rejected.
pub fn parse_count(s: &[u8]) -> (r: Option<u32>)
    ensures
        r is Some <==> {
            let d = digits_part(s@);
            d.len() > 0 && all_digits(d) && dec_value(d) <= u32::MAX
        },
        r matches Some(v) ==> v == dec_value(digits_part(s@)),
{
    let start: usize = if s.len() > 0 && s[0] == 43 {
        1
    } else {
        0
    };
    let ghost d = digits_part(s@);
    proof {
        assert(d =~= s@.subrange(start as int, s@.len() as int));
    }
    if s.len() == start {
        return None;
    }
    let mut acc: u32 = 0;
    let mut i: usize = start;
    proof {
        assert(d.take(0) =~= Seq::<u8>::empty());
    }
    while i < s.len()
        invariant
            start <= i <= s@.len(),
            d == digits_part(s@),
            d =~= s@.subrange(start as int, s@.len() as int),
            all_digits(d.take(i - start)),
            acc == dec_value(d.take(i - start)),
        decreases s@.len() - i,
    {
        let b: u8 = s[i];
        proof {
            assert(d[i - start] == s@[i as int]);
        }
        if b < 48 || b > 57 {
            assert(!is_digit(d[i - start]));
            return None;
        }
        let wide: u64 = (acc as u64) * 10 + ((b - 48) as u64);
        proof {
            let t = d.take(i + 1 - start);
            assert(t.drop_last() =~= d.take(i - start));
            assert(t.last() == d[i - start]);
            assert(wide == dec_value(t));
        }
        if wide > 0xffff_ffff {
            proof {
                if all_digits(d) {
                    lemma_dec_value_extend(d, i + 1 - start);
                }
            }
            return None;
        }
        acc = wide as u32;
        i = i + 1;
    }
    proof {
        assert(d.take(s@.len() - start) =~= d);
    }
    Some(acc)
}

} // verus!
