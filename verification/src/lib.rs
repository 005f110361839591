//! A parsing library for the AME2020 atomic mass evaluation mass-table format.
//!
//! The data is represented by [`Nuclide`], and the parsing is done by [`Iter`],
//! a pull-based scanner over a line-oriented reader. Each pull yields one
//! `Result<Nuclide, AmeError>`, or `None` once the reader is exhausted.
//!
//! Floating-point quantities are carried as IEEE 754 double-precision bit
//! patterns (`u64`): the verifier treats float values as opaque, so the
//! library stores and relates the bits and leaves arithmetic on them to a
//! small set of trusted operations.
use vstd::prelude::*;

pub use crate::error::AmeError;

pub mod columns;
pub mod digits;
pub mod error;
pub mod floats;
pub mod laws;
mod read;
pub mod record;
pub mod scan;

use crate::error::ErrView;
use crate::read::{make_lines, next_line};
use crate::record::{parse_data_line, record_res_view};
use crate::scan::{emits, state_after, ReadState};

verus! {

/// A value that has a mean and uncertainty.
///
/// The data may be an estimate (indicated by `is_estimated`).
/// If not, they are based on experimental data.
///
/// `mean` and `uncertainty` are IEEE 754 double-precision bit patterns;
/// apply `f64::from_bits` to read them as floats.
#[derive(Clone, Copy, PartialEq, Eq, Structural, Debug)]
pub struct Value {
    pub mean: u64,
    pub uncertainty: u64,
    pub is_estimated: bool,
}

impl Default for Value {
    /// The zero value: both bit patterns are zero (`0.0`) and it is not an
    /// estimate.
    fn default() -> (r: Self)
        ensures
            r == (Value { mean: 0, uncertainty: 0, is_estimated: false }),
    {
        Value { mean: 0, uncertainty: 0, is_estimated: false }
    }
}

/// A type holding the nuclide data: one row of the mass table.
#[derive(Clone, PartialEq, Debug)]
pub struct Nuclide {
    /// Neutron number
    pub n: u32,
    /// Proton number
    pub z: u32,
    /// Chemical symbol of the element: at most 3 bytes of trimmed text.
    pub element: Vec<u8>,
    /// Mass excess
    ///
    /// The difference between the mass in atomic mass units and the atomic
    /// mass number (N+Z).
    pub mass_excess: Value,
    /// Binding energy per nucleon
    pub binding_energy_per_a: Value,
    /// Beta decay energy, if any
    pub beta_decay_energy: Option<Value>,
    /// Atomic mass in atomic mass units
    pub atomic_mass: Value,
}

/// The mathematical image of a [`Nuclide`]: the element symbol becomes a
/// sequence, every other field is already a plain value.
pub struct NuclideView {
    pub n: u32,
    pub z: u32,
    pub element: Seq<u8>,
    pub mass_excess: Value,
    pub binding_energy_per_a: Value,
    pub beta_decay_energy: Option<Value>,
    pub atomic_mass: Value,
}

impl View for Nuclide {
    type V = NuclideView;

    open spec fn view(&self) -> NuclideView {
        NuclideView {
            n: self.n,
            z: self.z,
            element: self.element@,
            mass_excess: self.mass_excess,
            binding_energy_per_a: self.binding_energy_per_a,
            beta_decay_energy: self.beta_decay_energy,
            atomic_mass: self.atomic_mass,
        }
    }
}

impl Nuclide {
    /// The structural guarantee of extraction: the element symbol comes from
    /// a 3-byte column and never exceeds 3 bytes.
    pub open spec fn wf(self) -> bool {
        self@.element.len() <= 3
    }
}

/// A pull-based scanner that reads mass-table data from a line source.
///
/// Each call to [`next`][Self::next] consumes lines strictly forward until
/// one is parsed as a record attempt, and yields its `Result`, or `None`
/// once the source is exhausted. A per-line failure does not stop the
/// scanner: the next pull goes on with the next line. After a structural
/// failure (`TooShortLine`, `StrIndex`) later lines may no longer be aligned
/// with the format; what they yield is best-effort, not resynchronized.
#[verifier::reject_recursive_types(R)]
pub struct Iter<R> {
    lines: std::io::Lines<R>,
    state: ReadState,
}

impl<R: std::io::BufRead> Iter<R> {
    /// The structural zone the scanner is in.
    pub closed spec fn zone(self) -> ReadState {
        self.state
    }

    /// Creates a new `Iter` from `reader`.
    pub fn new(reader: R) -> (r: Self)
        ensures
            r.zone() == ReadState::Start,
    {
        let lines = make_lines(reader);
        Iter { lines, state: ReadState::Start }
    }

    /// Produces the next record attempt, or `None` at end of input.
    ///
    /// Whatever lines the source hands over, the outcome is what the scan
    /// model says of them: the lines consumed before the result produce
    /// nothing, the zone advances across them, and a produced item is either
    /// the classification of a failed read (`Io`) or exactly what
    /// [`spec_record`][record::spec_record] states of the line that was
    /// parsed.
    pub fn next(&mut self) -> (r: Option<Result<Nuclide, AmeError>>)
        ensures
            (match r {
                None => exists|ls: Seq<Seq<u8>>|
                    #![auto]
                    scan::consumed_silently(old(self).zone(), ls) && final(self).zone()
                        == state_after(old(self).zone(), ls),
                Some(item) => exists|ls: Seq<Seq<u8>>|
                    #![auto]
                    scan::consumed_silently(old(self).zone(), ls) && (match item {
                        Err(AmeError::Io(_)) => final(self).zone() == state_after(
                            old(self).zone(),
                            ls,
                        ),
                        _ => exists|l: Seq<u8>|
                            #![auto]
                            emits(state_after(old(self).zone(), ls), l) && record_res_view(item)
                                == crate::record::spec_record(l) && final(self).zone()
                                == state_after(old(self).zone(), ls.push(l)),
                    }),
            }),
            (match r {
                Some(Ok(nuc)) => nuc.wf(),
                _ => true,
            }),
    {
        let ghost z0 = self.state;
        let ghost mut consumed: Seq<Seq<u8>> = Seq::empty();
        // Every loop carries a termination bound. One pull reads at most
        // `u64::MAX` lines before it stops quietly; no real source comes
        // near that budget.
        let mut budget: u64 = u64::MAX;
        while budget > 0
            invariant
                z0 == old(self).zone(),
                self.state == state_after(z0, consumed),
                scan::consumed_silently(z0, consumed),
            decreases budget,
        {
            budget -= 1;
            let line = match next_line(&mut self.lines) {
                None => {
                    return None;
                },
                Some(Err(k)) => {
                    return Some(Err(AmeError::Io(k)));
                },
                Some(Ok(line)) => line,
            };
            match self.state {
                ReadState::Start => {
                    if scan::starts_with_byte(&line, 0x31) {
                        self.state = ReadState::Preamble;
                    }
                },
                ReadState::Preamble => {
                    if scan::starts_with_byte(&line, 0x31) {
                        self.state = ReadState::Headers;
                    }
                },
                ReadState::Headers => {
                    if scan::starts_with_byte(&line, 0x30) {
                        self.state = ReadState::Body;
                        let res = parse_data_line(&line);
                        proof {
                            scan::lemma_state_after_snoc(z0, consumed, line@);
                        }
                        return Some(res);
                    }
                },
                ReadState::Body => {
                    let res = parse_data_line(&line);
                    proof {
                        scan::lemma_state_after_snoc(z0, consumed, line@);
                        scan::lemma_scan_snoc(z0, consumed, line@);
                    }
                    return Some(res);
                },
            }
            proof {
                scan::lemma_state_after_snoc(z0, consumed, line@);
                scan::lemma_scan_snoc(z0, consumed, line@);
                consumed = consumed.push(line@);
                assert(scan::scan(z0, consumed) =~= Seq::<Result<NuclideView, ErrView>>::empty());
            }
        }
        None
    }
}

} // verus!
