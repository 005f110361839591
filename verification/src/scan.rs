//! The line classifier: the four structural zones of a mass-table file, the
//! transition on each line, and the sequence of results a whole run of lines
//! denotes.
use vstd::prelude::*;

use crate::error::ErrView;
use crate::record::spec_record;
use crate::NuclideView;

verus! {

/// The structural zone the scanner is in, in strict forward order with no
/// back-transitions.
#[derive(Clone, Copy, PartialEq, Eq, Structural, Debug)]
pub enum ReadState {
    /// Before the first page-feed marker; every line is discarded.
    Start,
    /// The preamble block, up to the next page-feed marker.
    Preamble,
    /// The header block, up to the first line starting with `'0'`.
    Headers,
    /// The data zone: every line is parsed as a record attempt.
    Body,
}

/// The line starts with the byte `b`.
pub open spec fn line_starts_with(line: Seq<u8>, b: u8) -> bool {
    line.len() > 0 && line[0] == b
}

/// The page-feed marker: a line beginning with `'1'` (0x31).
pub open spec fn is_page_feed(line: Seq<u8>) -> bool {
    line_starts_with(line, 0x31)
}

/// A line beginning with `'0'` (0x30): the first such line after the
/// headers is the first data line.
pub open spec fn is_data_start(line: Seq<u8>) -> bool {
    line_starts_with(line, 0x30)
}

/// The zone after seeing one line in zone `z`.
pub open spec fn step_state(z: ReadState, line: Seq<u8>) -> ReadState {
    match z {
        ReadState::Start => if is_page_feed(line) {
            ReadState::Preamble
        } else {
            ReadState::Start
        },
        ReadState::Preamble => if is_page_feed(line) {
            ReadState::Headers
        } else {
            ReadState::Preamble
        },
        ReadState::Headers => if is_data_start(line) {
            ReadState::Body
        } else {
            ReadState::Headers
        },
        ReadState::Body => ReadState::Body,
    }
}

/// Whether a line seen in zone `z` is parsed as a record attempt. In Body
/// every line is; the line that enters Body is itself parsed, not skipped.
pub open spec fn emits(z: ReadState, line: Seq<u8>) -> bool {
    z == ReadState::Body || (z == ReadState::Headers && is_data_start(line))
}

pub fn starts_with_byte(line: &Vec<u8>, b: u8) -> (r: bool)
    ensures
        r == line_starts_with(line@, b),
{
    line.len() > 0 && line[0] == b
}

/// The zone after seeing all of `lines` in order, from zone `z`.
pub open spec fn state_after(z: ReadState, lines: Seq<Seq<u8>>) -> ReadState
    decreases lines.len(),
{
    if lines.len() == 0 {
        z
    } else {
        state_after(step_state(z, lines[0]), lines.skip(1))
    }
}

/// The sequence of results that seeing all of `lines` in order from zone `z`
/// produces: one result per parsed line, in source order.
pub open spec fn scan(z: ReadState, lines: Seq<Seq<u8>>) -> Seq<Result<NuclideView, ErrView>>
    decreases lines.len(),
{
    if lines.len() == 0 {
        Seq::empty()
    } else {
        let head: Seq<Result<NuclideView, ErrView>> = if emits(z, lines[0]) {
            seq![spec_record(lines[0])]
        } else {
            Seq::empty()
        };
        head + scan(step_state(z, lines[0]), lines.skip(1))
    }
}

/// No line of `ls`, seen in order from zone `z`, is parsed as a record
/// attempt.
pub open spec fn consumed_silently(z: ReadState, ls: Seq<Seq<u8>>) -> bool {
    scan(z, ls) == Seq::<Result<NuclideView, ErrView>>::empty()
}

/// Seeing one more line moves the zone by one step.
pub proof fn lemma_state_after_snoc(z: ReadState, lines: Seq<Seq<u8>>, l: Seq<u8>)
    ensures
        state_after(z, lines.push(l)) == step_state(state_after(z, lines), l),
    decreases lines.len(),
{
    if lines.len() == 0 {
        assert(lines.push(l)[0] == l);
        assert(lines.push(l).skip(1) =~= Seq::<Seq<u8>>::empty());
        assert(state_after(step_state(z, l), Seq::<Seq<u8>>::empty()) == step_state(z, l));
        assert(state_after(z, lines.push(l)) == step_state(z, l));
        assert(state_after(z, lines) == z);
    } else {
        let z1 = step_state(z, lines[0]);
        let rest = lines.skip(1);
        assert(lines.push(l)[0] == lines[0]);
        assert(lines.push(l).skip(1) =~= rest.push(l));
        lemma_state_after_snoc(z1, rest, l);
        assert(state_after(z, lines.push(l)) == state_after(z1, lines.push(l).skip(1)));
        assert(state_after(z, lines.push(l)) == state_after(z1, rest.push(l)));
        assert(state_after(z, lines) == state_after(z1, rest));
    }
}

/// Seeing one more line appends that line's result, if it is parsed at all.
pub proof fn lemma_scan_snoc(z: ReadState, lines: Seq<Seq<u8>>, l: Seq<u8>)
    ensures
        scan(z, lines.push(l)) == scan(z, lines) + (if emits(state_after(z, lines), l) {
            seq![spec_record(l)]
        } else {
            Seq::<Result<NuclideView, ErrView>>::empty()
        }),
    decreases lines.len(),
{
    let tail: Seq<Result<NuclideView, ErrView>> = if emits(state_after(z, lines), l) {
        seq![spec_record(l)]
    } else {
        Seq::empty()
    };
    if lines.len() == 0 {
        assert(lines.push(l)[0] == l);
        assert(lines.push(l).skip(1) =~= Seq::<Seq<u8>>::empty());
        assert(state_after(z, lines) == z);
        assert(scan(step_state(z, l), Seq::<Seq<u8>>::empty()) =~= Seq::<
            Result<NuclideView, ErrView>,
        >::empty());
        assert(scan(z, lines.push(l)) =~= tail + Seq::<Result<NuclideView, ErrView>>::empty());
        assert(scan(z, lines) =~= Seq::<Result<NuclideView, ErrView>>::empty());
        assert(tail + Seq::<Result<NuclideView, ErrView>>::empty() =~= scan(z, lines) + tail);
        assert(scan(z, lines.push(l)) =~= scan(z, lines) + tail);
    } else {
        let z1 = step_state(z, lines[0]);
        let rest = lines.skip(1);
        let head: Seq<Result<NuclideView, ErrView>> = if emits(z, lines[0]) {
            seq![spec_record(lines[0])]
        } else {
            Seq::empty()
        };
        assert(lines.push(l)[0] == lines[0]);
        assert(lines.push(l).skip(1) =~= rest.push(l));
        lemma_scan_snoc(z1, rest, l);
        lemma_state_after_snoc(z, lines, l);
        assert(state_after(z, lines) == state_after(z1, rest));
        assert(scan(z1, rest.push(l)) == scan(z1, rest) + tail);
        assert(scan(z, lines.push(l)) == head + scan(z1, rest.push(l)));
        assert(scan(z, lines) == head + scan(z1, rest));
        assert(head + (scan(z1, rest) + tail) =~= (head + scan(z1, rest)) + tail);
        assert(scan(z, lines.push(l)) =~= scan(z, lines) + tail);
    }
}

} // verus!
