//! The fixed-column field extractor: byte-range slicing with character
//! boundary checks, trimming, and the `#` estimate marker.
use vstd::prelude::*;

use crate::error::{AmeError, ErrView};

verus! {

/// A UTF-8 continuation byte: one that can only stand inside a multi-byte
/// character, never on a character boundary.
pub open spec fn is_cont_byte(b: u8) -> bool {
    0x80 <= b < 0xC0
}

/// Byte offset `i` falls on a character boundary of `line`, as
/// `str::is_char_boundary` decides it.
pub open spec fn is_boundary(line: Seq<u8>, i: int) -> bool {
    i == 0 || i == line.len() || (0 < i < line.len() && !is_cont_byte(line[i]))
}

/// The raw text of the column `a..b`: the bytes of that half-open range, or
/// the error when the line is too short (checked first) or the range does
/// not fall on character boundaries.
pub open spec fn spec_column(line: Seq<u8>, a: int, b: int) -> Result<Seq<u8>, ErrView> {
    if line.len() < b {
        Err(ErrView::TooShortLine)
    } else if !(is_boundary(line, a) && is_boundary(line, b)) {
        Err(ErrView::StrIndex)
    } else {
        Ok(line.subrange(a, b))
    }
}

/// The image of a column extraction result.
pub open spec fn column_res_view(r: Result<Vec<u8>, AmeError>) -> Result<Seq<u8>, ErrView> {
    match r {
        Ok(v) => Ok(v@),
        Err(e) => Err(e@),
    }
}

fn boundary(line: &Vec<u8>, i: usize) -> (r: bool)
    requires
        i <= line.len(),
    ensures
        r == is_boundary(line@, i as int),
{
    i == 0 || i == line.len() || !(0x80 <= line[i] && line[i] < 0xC0)
}

/// Extracts the raw text of the column `a..b` of the line.
pub fn column(line: &Vec<u8>, a: usize, b: usize) -> (r: Result<Vec<u8>, AmeError>)
    requires
        a <= b,
    ensures
        column_res_view(r) == spec_column(line@, a as int, b as int),
        r matches Ok(v) ==> v@.len() == b - a,
{
    if line.len() < b {
        return Err(AmeError::TooShortLine);
    }
    if !(boundary(line, a) && boundary(line, b)) {
        return Err(AmeError::StrIndex);
    }
    let mut v: Vec<u8> = Vec::new();
    let mut j: usize = a;
    while j < b
        invariant
            a <= j <= b <= line.len(),
            v@ == line@.subrange(a as int, j as int),
        decreases b - j,
    {
        v.push(line[j]);
        proof {
            assert(v@ =~= line@.subrange(a as int, j as int + 1));
        }
        j += 1;
    }
    Ok(v)
}

/// Every `#` replaced by `.`: how a provisional (estimated) figure is turned
/// into parsable text.
pub open spec fn replace_hash(s: Seq<u8>) -> Seq<u8> {
    s.map_values(|b: u8| if b == 0x23 { 0x2Eu8 } else { b })
}

/// The text holds a `#`, the mark of an estimated figure.
pub open spec fn has_hash(s: Seq<u8>) -> bool {
    exists|i: int| 0 <= i < s.len() && s[i] == 0x23
}

pub fn replace_hash_exec(s: &Vec<u8>) -> (r: Vec<u8>)
    ensures
        r@ == replace_hash(s@),
{
    let mut r: Vec<u8> = Vec::new();
    let mut j: usize = 0;
    while j < s.len()
        invariant
            j <= s@.len(),
            r@ == replace_hash(s@.take(j as int)),
        decreases s@.len() - j,
    {
        let b = s[j];
        if b == 0x23 {
            r.push(0x2E);
        } else {
            r.push(b);
        }
        proof {
            assert(r@ =~= replace_hash(s@.take(j as int + 1)));
        }
        j += 1;
    }
    proof {
        assert(s@.take(s@.len() as int) =~= s@);
    }
    r
}

pub fn has_hash_exec(s: &Vec<u8>) -> (r: bool)
    ensures
        r == has_hash(s@),
{
    let mut j: usize = 0;
    while j < s.len()
        invariant
            j <= s@.len(),
            forall|i: int| 0 <= i < j ==> s@[i] != 0x23,
        decreases s@.len() - j,
    {
        if s[j] == 0x23 {
            return true;
        }
        j += 1;
    }
    false
}

/// The text with leading and trailing whitespace removed, as `str::trim`
/// removes it. Deterministic in the bytes.
pub uninterp spec fn trimmed(s: Seq<u8>) -> Seq<u8>;

/// Relies on `str::trim`: removes leading and trailing Unicode whitespace
/// from the decoded text. `str::trim` returns a subslice, so the result is
/// never longer than the input; bytes that do not decode come back unchanged.
#[verifier::external_body]
pub(crate) fn trim_bytes(s: &Vec<u8>) -> (r: Vec<u8>)
    ensures
        r@ == trimmed(s@),
        r@.len() <= s@.len(),
{
    match core::str::from_utf8(s) {
        Ok(t) => t.trim().as_bytes().to_vec(),
        Err(_) => s.clone(),
    }
}

} // verus!
