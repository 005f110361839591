//! Decimal integer columns, parsed with the semantics of `u32::from_str` /
//! `u16::from_str`: an optional leading `+`, then one or more ASCII digits,
//! rejected on any other character or on overflow.
use vstd::prelude::*;

verus! {

/// An ASCII decimal digit.
pub open spec fn is_digit(b: u8) -> bool {
    0x30 <= b <= 0x39
}

pub open spec fn all_digits(s: Seq<u8>) -> bool {
    forall|i: int| 0 <= i < s.len() ==> is_digit(#[trigger] s[i])
}

/// The number the digit string denotes, most significant digit first.
pub open spec fn digits_val(s: Seq<u8>) -> int
    decreases s.len(),
{
    if s.len() == 0 {
        0
    } else {
        digits_val(s.drop_last()) * 10 + (s.last() - 0x30)
    }
}

/// The text with one leading `+` removed, if present.
pub open spec fn strip_plus(s: Seq<u8>) -> Seq<u8> {
    if s.len() > 0 && s[0] == 0x2B {
        s.skip(1)
    } else {
        s
    }
}

/// What an unsigned decimal column parses to: the denoted number, or `None`
/// where the text is empty, holds a non-digit, or exceeds `max`.
pub open spec fn spec_parse_uint(s: Seq<u8>, max: int) -> Option<u64> {
    let t = strip_plus(s);
    if t.len() > 0 && all_digits(t) && digits_val(t) <= max {
        Some(digits_val(t) as u64)
    } else {
        None
    }
}

proof fn lemma_digits_val_nonneg(s: Seq<u8>)
    requires
        all_digits(s),
    ensures
        digits_val(s) >= 0,
    decreases s.len(),
{
    if s.len() > 0 {
        assert(all_digits(s.drop_last()));
        lemma_digits_val_nonneg(s.drop_last());
    }
}

/// A digit string denotes at least what any of its prefixes denotes.
proof fn lemma_digits_val_prefix(s: Seq<u8>, j: int)
    requires
        all_digits(s),
        0 <= j <= s.len(),
    ensures
        digits_val(s.take(j)) <= digits_val(s),
    decreases s.len(),
{
    if j == s.len() {
        assert(s.take(j) =~= s);
    } else {
        let head = s.drop_last();
        assert(all_digits(head));
        assert(head.take(j) =~= s.take(j));
        lemma_digits_val_prefix(head, j);
        lemma_digits_val_nonneg(head);
    }
}

/// Parses an unsigned decimal column, `None` past `max`.
pub fn parse_uint(s: &Vec<u8>, max: u64) -> (r: Option<u64>)
    requires
        max >= 9,
    ensures
        r == spec_parse_uint(s@, max as int),
{
    let ghost t = strip_plus(s@);
    let start: usize = if s.len() > 0 && s[0] == 0x2B {
        1
    } else {
        0
    };
    proof {
        assert(t =~= s@.skip(start as int));
    }
    if s.len() == start {
        return None;
    }
    let mut acc: u64 = 0;
    let mut j: usize = start;
    while j < s.len()
        invariant
            start <= j <= s@.len(),
            t == s@.skip(start as int),
            t.len() == s@.len() - start,
            all_digits(t.take(j - start)),
            acc == digits_val(t.take(j - start)),
            acc <= max,
            max >= 9,
            spec_parse_uint(s@, max as int) == (if t.len() > 0 && all_digits(t) && digits_val(t)
                <= max as int {
                Some(digits_val(t) as u64)
            } else {
                None::<u64>
            }),
        decreases s@.len() - j,
    {
        let b = s[j];
        proof {
            assert(t[j - start] == s@[j as int]);
        }
        if !(0x30 <= b && b <= 0x39) {
            proof {
                assert(!is_digit(t[j - start]));
                assert(!all_digits(t));
            }
            return None;
        }
        let d: u64 = (b - 0x30) as u64;
        if acc > (max - d) / 10 {
            proof {
                assert(acc * 10 + d > max) by (nonlinear_arith)
                    requires
                        acc > (max - d) / 10,
                        d <= 9,
                        max >= d,
                        acc >= 0,
                ;
                assert(t.take(j - start + 1).drop_last() =~= t.take(j - start));
                assert(t.take(j - start + 1).last() == t[j - start]);
                assert(digits_val(t.take(j - start + 1)) == acc * 10 + d);
                if all_digits(t) {
                    lemma_digits_val_prefix(t, j - start + 1);
                    assert(digits_val(t) > max);
                }
            }
            return None;
        }
        proof {
            assert(acc * 10 + d <= max) by (nonlinear_arith)
                requires
                    acc <= (max - d) / 10,
                    d <= 9,
                    max >= d,
                    acc >= 0,
            ;
            assert(t.take(j - start + 1).drop_last() =~= t.take(j - start));
            assert(t.take(j - start + 1).last() == t[j - start]);
        }
        acc = acc * 10 + d;
        j += 1;
    }
    proof {
        assert(t.take(s@.len() - start) =~= t);
    }
    Some(acc)
}

} // verus!
