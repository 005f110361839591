//! Trusted bridge to `f64`: parsing and the two arithmetic steps that build
//! the atomic mass. Float values are opaque to the verifier, so each result
//! is carried as an IEEE 754 bit pattern and pinned by an uninterpreted name;
//! the names are deterministic functions of their arguments.
use rustc_apfloat::Float;
use vstd::prelude::*;

verus! {

/// The bit pattern of the `f64` that the text parses to, `None` where the
/// text is not a float (or not UTF-8). Deterministic in the bytes.
pub uninterp spec fn float_bits(s: Seq<u8>) -> Option<u64>;

/// The bit pattern of the value scaled by `1e-6`. Deterministic in the bits.
pub uninterp spec fn micro_scaled(bits: u64) -> u64;

/// The bit pattern of the value plus the whole number `whole`.
/// Deterministic in the arguments.
pub uninterp spec fn plus_whole(bits: u64, whole: u16) -> u64;

/// Relies on `rustc_apfloat::ieee::Double::from_str`: parses the decoded
/// text as a correctly rounded IEEE 754 double and returns its bit pattern,
/// `None` where parsing (or decoding) fails.
#[verifier::external_body]
pub(crate) fn parse_float_bits(s: &Vec<u8>) -> (r: Option<u64>)
    ensures
        r == float_bits(s@),
{
    match core::str::from_utf8(s) {
        Ok(t) => match t.parse::<rustc_apfloat::ieee::Double>() {
            Ok(v) => Some(v.to_bits() as u64),
            Err(_) => None,
        },
        Err(_) => None,
    }
}

/// Relies on `rustc_apfloat::ieee::Double`'s correctly rounded
/// multiplication: scales the value by `1e-6` (micro-units to units).
#[verifier::external_body]
pub(crate) fn scale_micro(bits: u64) -> (r: u64)
    ensures
        r == micro_scaled(bits),
{
    let micro: rustc_apfloat::ieee::Double = "1e-6".parse().unwrap();
    let v = rustc_apfloat::ieee::Double::from_bits(bits as u128);
    (v * micro).value.to_bits() as u64
}

/// Relies on `rustc_apfloat::ieee::Double`'s correctly rounded addition and
/// exact conversion from small integers: adds the whole number to the value.
#[verifier::external_body]
pub(crate) fn add_whole(bits: u64, whole: u16) -> (r: u64)
    ensures
        r == plus_whole(bits, whole),
{
    let w = rustc_apfloat::ieee::Double::from_u128(whole as u128).value;
    let v = rustc_apfloat::ieee::Double::from_bits(bits as u128);
    (v + w).value.to_bits() as u64
}

} // verus!
