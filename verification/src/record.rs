//! Assembly of one [`Nuclide`] from one data line: the fixed column layout
//! of the format, and the extraction of every field in source order.
use vstd::prelude::*;

use crate::columns::{column, has_hash, has_hash_exec, replace_hash, replace_hash_exec,
    spec_column, trim_bytes, trimmed};
use crate::digits::{parse_uint, spec_parse_uint};
use crate::error::{AmeError, ErrView};
use crate::floats::{add_whole, float_bits, micro_scaled, parse_float_bits, plus_whole,
    scale_micro};
use crate::{Nuclide, NuclideView, Value};

verus! {

/// What a float column parses to: its text with `#` replaced by `.` and
/// whitespace trimmed, read as a double.
pub open spec fn spec_float_col(raw: Seq<u8>) -> Option<u64> {
    float_bits(trimmed(replace_hash(raw)))
}

/// What an integer column parses to: the trimmed text as an unsigned
/// decimal, `ParseInt` carrying that text on failure.
pub open spec fn spec_int_col(line: Seq<u8>, a: int, b: int, max: int) -> Result<u64, ErrView> {
    match spec_column(line, a, b) {
        Err(e) => Err(e),
        Ok(raw) => match spec_parse_uint(trimmed(raw), max) {
            None => Err(ErrView::ParseInt(trimmed(raw))),
            Some(v) => Ok(v),
        },
    }
}

/// What a mean/uncertainty pair parses to, in source order: mean column,
/// mean parse, uncertainty column, uncertainty parse. A `#` anywhere in the
/// raw mean text marks the value as estimated.
pub open spec fn spec_value(line: Seq<u8>, ma: int, mb: int, ua: int, ub: int) -> Result<
    Value,
    ErrView,
> {
    match spec_column(line, ma, mb) {
        Err(e) => Err(e),
        Ok(m_raw) => match spec_float_col(m_raw) {
            None => Err(ErrView::ParseFloat(trimmed(replace_hash(m_raw)))),
            Some(mean) => match spec_column(line, ua, ub) {
                Err(e) => Err(e),
                Ok(u_raw) => match spec_float_col(u_raw) {
                    None => Err(ErrView::ParseFloat(trimmed(replace_hash(u_raw)))),
                    Some(uncertainty) => Ok(
                        Value { mean, uncertainty, is_estimated: has_hash(m_raw) },
                    ),
                },
            },
        },
    }
}

/// The beta decay energy: absent when the trimmed applicability flag column
/// is `*`, otherwise a value pair of its own.
pub open spec fn spec_beta(line: Seq<u8>, flag: Seq<u8>) -> Result<Option<Value>, ErrView> {
    if flag == seq![0x2Au8] {
        Ok(None)
    } else {
        match spec_value(line, 81, 94, 94, 105) {
            Err(e) => Err(e),
            Ok(v) => Ok(Some(v)),
        }
    }
}

/// What one data line denotes: a whole record, or the first error met going
/// through the columns in source order. The column ranges are fixed byte
/// offsets of the format; the atomic mass is reconstructed from its whole
/// part and its fractional part in micro-units scaled by `1e-6`.
pub open spec fn spec_record(line: Seq<u8>) -> Result<NuclideView, ErrView> {
    match spec_int_col(line, 4, 9, u32::MAX as int) {
        Err(e) => Err(e),
        Ok(n) => match spec_int_col(line, 9, 14, u32::MAX as int) {
            Err(e) => Err(e),
            Ok(z) => match spec_column(line, 20, 23) {
                Err(e) => Err(e),
                Ok(el_raw) => match spec_value(line, 28, 42, 42, 54) {
                    Err(e) => Err(e),
                    Ok(mass_excess) => match spec_value(line, 54, 67, 68, 78) {
                        Err(e) => Err(e),
                        Ok(binding_energy_per_a) => match spec_column(line, 87, 88) {
                            Err(e) => Err(e),
                            Ok(flag_raw) => match spec_beta(line, trimmed(flag_raw)) {
                                Err(e) => Err(e),
                                Ok(beta_decay_energy) => match spec_value(
                                    line,
                                    110,
                                    123,
                                    123,
                                    line.len() as int,
                                ) {
                                    Err(e) => Err(e),
                                    Ok(frac) => match spec_int_col(line, 106, 109, u16::MAX as int) {
                                        Err(e) => Err(e),
                                        Ok(whole) => Ok(
                                            NuclideView {
                                                n: n as u32,
                                                z: z as u32,
                                                element: trimmed(el_raw),
                                                mass_excess,
                                                binding_energy_per_a,
                                                beta_decay_energy,
                                                atomic_mass: Value {
                                                    mean: plus_whole(
                                                        micro_scaled(frac.mean),
                                                        whole as u16,
                                                    ),
                                                    uncertainty: micro_scaled(frac.uncertainty),
                                                    is_estimated: frac.is_estimated,
                                                },
                                            },
                                        ),
                                    },
                                },
                            },
                        },
                    },
                },
            },
        },
    }
}

/// The image of a record parse result.
pub open spec fn record_res_view(r: Result<Nuclide, AmeError>) -> Result<NuclideView, ErrView> {
    match r {
        Ok(nuc) => Ok(nuc@),
        Err(e) => Err(e@),
    }
}

fn int_col(line: &Vec<u8>, a: usize, b: usize, max: u64) -> (r: Result<u64, AmeError>)
    requires
        a <= b,
        max >= 9,
    ensures
        (match r {
            Ok(v) => spec_int_col(line@, a as int, b as int, max as int) == Ok::<u64, ErrView>(v),
            Err(e) => spec_int_col(line@, a as int, b as int, max as int) == Err::<u64, ErrView>(
                e@,
            ),
        }),
{
    let raw = match column(line, a, b) {
        Ok(v) => v,
        Err(e) => return Err(e),
    };
    let t = trim_bytes(&raw);
    match parse_uint(&t, max) {
        Some(v) => Ok(v),
        None => Err(AmeError::ParseInt(t)),
    }
}

fn parse_value(line: &Vec<u8>, ma: usize, mb: usize, ua: usize, ub: usize) -> (r: Result<
    Value,
    AmeError,
>)
    requires
        ma <= mb <= ua,
        line@.len() >= mb ==> ua <= ub,
    ensures
        (match r {
            Ok(v) => spec_value(line@, ma as int, mb as int, ua as int, ub as int) == Ok::<
                Value,
                ErrView,
            >(v),
            Err(e) => spec_value(line@, ma as int, mb as int, ua as int, ub as int) == Err::<
                Value,
                ErrView,
            >(e@),
        }),
{
    let m_raw = match column(line, ma, mb) {
        Ok(v) => v,
        Err(e) => return Err(e),
    };
    let m_replaced = replace_hash_exec(&m_raw);
    let m_trimmed = trim_bytes(&m_replaced);
    let mean = match parse_float_bits(&m_trimmed) {
        Some(v) => v,
        None => return Err(AmeError::ParseFloat(m_trimmed)),
    };
    let u_raw = match column(line, ua, ub) {
        Ok(v) => v,
        Err(e) => return Err(e),
    };
    let u_replaced = replace_hash_exec(&u_raw);
    let u_trimmed = trim_bytes(&u_replaced);
    let uncertainty = match parse_float_bits(&u_trimmed) {
        Some(v) => v,
        None => return Err(AmeError::ParseFloat(u_trimmed)),
    };
    let is_estimated = has_hash_exec(&m_raw);
    Ok(Value { mean, uncertainty, is_estimated })
}

/// Parses one data line of the table into a record, in the fixed column
/// layout of the format. The result is exactly what [`spec_record`] states
/// of the line's bytes, and a produced record is well formed.
pub fn parse_data_line(line: &Vec<u8>) -> (r: Result<Nuclide, AmeError>)
    ensures
        record_res_view(r) == spec_record(line@),
        r matches Ok(nuc) ==> nuc.wf(),
{
    let n64 = match int_col(line, 4, 9, 0xFFFF_FFFF) {
        Ok(v) => v,
        Err(e) => return Err(e),
    };
    let z64 = match int_col(line, 9, 14, 0xFFFF_FFFF) {
        Ok(v) => v,
        Err(e) => return Err(e),
    };
    let el_raw = match column(line, 20, 23) {
        Ok(v) => v,
        Err(e) => return Err(e),
    };
    let element = trim_bytes(&el_raw);
    let mass_excess = match parse_value(line, 28, 42, 42, 54) {
        Ok(v) => v,
        Err(e) => return Err(e),
    };
    let binding_energy_per_a = match parse_value(line, 54, 67, 68, 78) {
        Ok(v) => v,
        Err(e) => return Err(e),
    };
    let flag_raw = match column(line, 87, 88) {
        Ok(v) => v,
        Err(e) => return Err(e),
    };
    let flag = trim_bytes(&flag_raw);
    let beta_decay_energy = if !(flag.len() == 1 && flag[0] == 0x2A) {
        proof {
            assert(flag@ != seq![0x2Au8]) by {
                if flag@ == seq![0x2Au8] {
                    assert(flag@.len() == 1);
                    assert(flag@[0] == 0x2A);
                }
            }
        }
        match parse_value(line, 81, 94, 94, 105) {
            Ok(v) => Some(v),
            Err(e) => return Err(e),
        }
    } else {
        proof {
            assert(flag@ =~= seq![0x2Au8]);
        }
        None
    };
    let frac = match parse_value(line, 110, 123, 123, line.len()) {
        Ok(v) => v,
        Err(e) => return Err(e),
    };
    let whole64 = match int_col(line, 106, 109, 0xFFFF) {
        Ok(v) => v,
        Err(e) => return Err(e),
    };
    let atomic_mass = Value {
        mean: add_whole(scale_micro(frac.mean), whole64 as u16),
        uncertainty: scale_micro(frac.uncertainty),
        is_estimated: frac.is_estimated,
    };
    Ok(
        Nuclide {
            n: n64 as u32,
            z: z64 as u32,
            element,
            mass_excess,
            binding_energy_per_a,
            beta_decay_energy,
            atomic_mass,
        },
    )
}

} // verus!
