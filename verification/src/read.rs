//! Trusted boundary to the line source: a `BufRead` reader turned into a
//! line iterator. What comes out of a read depends on the outside world, so
//! nothing is claimed of it; the scanner states what holds of every outcome.
use vstd::prelude::*;

verus! {

/// Makes `std::io::Lines` known to the verifier so the scanner can own one.
#[verifier::external_type_specification]
#[verifier::external_body]
#[verifier::reject_recursive_types(B)]
pub struct ExLines<B>(std::io::Lines<B>);

/// Relies on `BufRead::lines`: turns the reader into an iterator over its
/// lines.
#[verifier::external_body]
pub(crate) fn make_lines<R: std::io::BufRead>(reader: R) -> std::io::Lines<R> {
    reader.lines()
}

/// Relies on `Lines::next`: yields the next line, without its terminator, as
/// raw bytes; or the classification of the failed read (`InvalidData` when
/// the bytes do not decode as UTF-8); or `None` once the input is exhausted.
#[verifier::external_body]
pub(crate) fn next_line<R: std::io::BufRead>(lines: &mut std::io::Lines<R>) -> (r: Option<
    Result<Vec<u8>, std::io::ErrorKind>,
>) {
    lines.next().map(|res| res.map(String::into_bytes).map_err(|e| e.kind()))
}

} // verus!
