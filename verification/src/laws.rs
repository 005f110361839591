//! Laws of the scanner, stated over the scan model and proved once for all
//! inputs.
use vstd::prelude::*;

use crate::columns::is_cont_byte;
use crate::error::ErrView;
use crate::record::spec_record;
use crate::scan::{emits, is_data_start, is_page_feed, scan, state_after, step_state, ReadState};
use crate::NuclideView;

verus! {

/// Once in the data zone, the scanner stays there.
pub proof fn lemma_body_stays(lines: Seq<Seq<u8>>)
    ensures
        state_after(ReadState::Body, lines) == ReadState::Body,
    decreases lines.len(),
{
    if lines.len() > 0 {
        lemma_body_stays(lines.skip(1));
    }
}

proof fn lemma_silent_outside_body(z: ReadState, lines: Seq<Seq<u8>>)
    requires
        z != ReadState::Body,
        state_after(z, lines) != ReadState::Body,
    ensures
        scan(z, lines) == Seq::<Result<NuclideView, ErrView>>::empty(),
    decreases lines.len(),
{
    if lines.len() > 0 {
        let z1 = step_state(z, lines[0]);
        if emits(z, lines[0]) {
            assert(z1 == ReadState::Body);
            lemma_body_stays(lines.skip(1));
            assert(false);
        }
        assert(z1 != ReadState::Body) by {
            if z1 == ReadState::Body {
                lemma_body_stays(lines.skip(1));
            }
        }
        lemma_silent_outside_body(z1, lines.skip(1));
        assert(scan(z, lines) =~= Seq::<Result<NuclideView, ErrView>>::empty());
    }
}

/// A run of lines that never reaches the data zone produces nothing: an
/// empty file, or one truncated anywhere before its first data line, yields
/// an empty sequence and no error.
pub proof fn lemma_no_data_zone_no_records(lines: Seq<Seq<u8>>)
    requires
        state_after(ReadState::Start, lines) != ReadState::Body,
    ensures
        scan(ReadState::Start, lines) == Seq::<Result<NuclideView, ErrView>>::empty(),
{
    lemma_silent_outside_body(ReadState::Start, lines);
}

/// A block of lines that each leave zone `z` unchanged and unparsed is
/// discarded without a trace.
proof fn lemma_stationary_block(z: ReadState, block: Seq<Seq<u8>>, rest: Seq<Seq<u8>>)
    requires
        forall|i: int|
            0 <= i < block.len() ==> step_state(z, #[trigger] block[i]) == z && !emits(
                z,
                block[i],
            ),
    ensures
        scan(z, block + rest) == scan(z, rest),
        state_after(z, block + rest) == state_after(z, rest),
    decreases block.len(),
{
    if block.len() == 0 {
        assert(block + rest =~= rest);
    } else {
        let whole = block + rest;
        assert(whole[0] == block[0]);
        assert(whole.skip(1) =~= block.skip(1) + rest);
        assert(forall|i: int|
            0 <= i < block.skip(1).len() ==> step_state(z, #[trigger] block.skip(1)[i]) == z
                && !emits(z, block.skip(1)[i])) by {
            assert(forall|i: int| 0 <= i < block.skip(1).len() ==> block.skip(1)[i] == block[i + 1]);
        }
        lemma_stationary_block(z, block.skip(1), rest);
        assert(scan(z, whole) =~= scan(z, block.skip(1) + rest));
        assert(state_after(z, whole) == state_after(z, block.skip(1) + rest));
    }
}

/// Content preceding the first page-feed marker is discarded, never parsed
/// or surfaced as an error, whatever it holds.
pub proof fn lemma_pre_preamble_discarded(junk: Seq<Seq<u8>>, rest: Seq<Seq<u8>>)
    requires
        forall|i: int| 0 <= i < junk.len() ==> !is_page_feed(#[trigger] junk[i]),
    ensures
        scan(ReadState::Start, junk + rest) == scan(ReadState::Start, rest),
        state_after(ReadState::Start, junk + rest) == state_after(ReadState::Start, rest),
{
    lemma_stationary_block(ReadState::Start, junk, rest);
}

/// One line that is not parsed moves the zone one step and produces nothing.
pub proof fn lemma_single_step(z: ReadState, l: Seq<u8>, rest: Seq<Seq<u8>>)
    requires
        !emits(z, l),
    ensures
        scan(z, seq![l] + rest) == scan(step_state(z, l), rest),
        state_after(z, seq![l] + rest) == state_after(step_state(z, l), rest),
{
    let whole = seq![l] + rest;
    assert(whole[0] == l);
    assert(whole.skip(1) =~= rest);
    assert(scan(z, whole) =~= scan(step_state(z, l), rest));
}

/// Page-feed markers beyond the second are consumed in the header zone with
/// no effect: any number of them reads the same as exactly two.
pub proof fn lemma_extra_page_feeds(feeds: Seq<Seq<u8>>, rest: Seq<Seq<u8>>)
    requires
        forall|i: int| 0 <= i < feeds.len() ==> is_page_feed(#[trigger] feeds[i]),
    ensures
        scan(ReadState::Headers, feeds + rest) == scan(ReadState::Headers, rest),
        state_after(ReadState::Headers, feeds + rest) == state_after(ReadState::Headers, rest),
{
    assert(forall|i: int|
        0 <= i < feeds.len() ==> step_state(ReadState::Headers, #[trigger] feeds[i])
            == ReadState::Headers && !emits(ReadState::Headers, feeds[i]));
    lemma_stationary_block(ReadState::Headers, feeds, rest);
}

/// Header blocks of arbitrary length are accepted and discarded: lines that
/// do not start with `'0'` leave the header zone unchanged.
pub proof fn lemma_headers_discarded(hdrs: Seq<Seq<u8>>, rest: Seq<Seq<u8>>)
    requires
        forall|i: int| 0 <= i < hdrs.len() ==> !is_data_start(#[trigger] hdrs[i]),
    ensures
        scan(ReadState::Headers, hdrs + rest) == scan(ReadState::Headers, rest),
        state_after(ReadState::Headers, hdrs + rest) == state_after(ReadState::Headers, rest),
{
    lemma_stationary_block(ReadState::Headers, hdrs, rest);
}

/// The first line starting with `'0'` after the headers is parsed as the
/// first record itself, not skipped, and the scanner is in the data zone
/// from that line on.
pub proof fn lemma_first_data_line(d: Seq<u8>, rest: Seq<Seq<u8>>)
    requires
        is_data_start(d),
    ensures
        scan(ReadState::Headers, seq![d] + rest) == seq![spec_record(d)] + scan(
            ReadState::Body,
            rest,
        ),
{
    let whole = seq![d] + rest;
    assert(whole[0] == d);
    assert(whole.skip(1) =~= rest);
    assert(scan(ReadState::Headers, whole) =~= seq![spec_record(d)] + scan(ReadState::Body, rest));
}

/// In the data zone every line yields exactly one result of its own, in
/// source order: an error on one line neither halts the sequence nor leaks
/// into what any other line yields.
pub proof fn lemma_body_maps(lines: Seq<Seq<u8>>)
    ensures
        scan(ReadState::Body, lines) == lines.map_values(|l: Seq<u8>| spec_record(l)),
    decreases lines.len(),
{
    let f = |l: Seq<u8>| spec_record(l);
    if lines.len() == 0 {
        assert(lines.map_values(f) =~= Seq::<Result<NuclideView, ErrView>>::empty());
    } else {
        lemma_body_maps(lines.skip(1));
        assert(scan(ReadState::Body, lines) == seq![spec_record(lines[0])] + lines.skip(
            1,
        ).map_values(f));
        assert(seq![spec_record(lines[0])] + lines.skip(1).map_values(f) =~= lines.map_values(f));
    }
}

/// A whole well-formed file, read from the start: arbitrary content, a
/// page-feed marker, a preamble, a second marker, a header block, then the
/// data lines, of which the first starts with `'0'`. The scan yields exactly
/// one result per data line, in source order, so a full file collects into
/// an ordered list with one entry per data line.
pub proof fn lemma_well_formed_file(
    junk: Seq<Seq<u8>>,
    m1: Seq<u8>,
    pre: Seq<Seq<u8>>,
    m2: Seq<u8>,
    hdrs: Seq<Seq<u8>>,
    data: Seq<Seq<u8>>,
)
    requires
        forall|i: int| 0 <= i < junk.len() ==> !is_page_feed(#[trigger] junk[i]),
        is_page_feed(m1),
        forall|i: int| 0 <= i < pre.len() ==> !is_page_feed(#[trigger] pre[i]),
        is_page_feed(m2),
        forall|i: int| 0 <= i < hdrs.len() ==> !is_data_start(#[trigger] hdrs[i]),
        data.len() > 0,
        is_data_start(data[0]),
    ensures
        scan(ReadState::Start, junk + seq![m1] + pre + seq![m2] + hdrs + data) == data.map_values(
            |l: Seq<u8>| spec_record(l),
        ),
{
    let tail4 = hdrs + data;
    let tail3 = seq![m2] + tail4;
    let tail2 = pre + tail3;
    let tail1 = seq![m1] + tail2;
    assert(junk + seq![m1] + pre + seq![m2] + hdrs + data =~= junk + tail1);
    lemma_stationary_block(ReadState::Start, junk, tail1);
    lemma_single_step(ReadState::Start, m1, tail2);
    assert(step_state(ReadState::Start, m1) == ReadState::Preamble);
    lemma_stationary_block(ReadState::Preamble, pre, tail3);
    lemma_single_step(ReadState::Preamble, m2, tail4);
    assert(step_state(ReadState::Preamble, m2) == ReadState::Headers);
    lemma_headers_discarded(hdrs, data);
    assert(data =~= seq![data[0]] + data.skip(1));
    lemma_first_data_line(data[0], data.skip(1));
    lemma_body_maps(data.skip(1));
    let f = |l: Seq<u8>| spec_record(l);
    assert(seq![spec_record(data[0])] + data.skip(1).map_values(f) =~= data.map_values(f));
}

/// A line shorter than the first required column range yields exactly
/// `TooShortLine`, whatever its content.
pub proof fn lemma_short_line(l: Seq<u8>)
    requires
        l.len() < 9,
    ensures
        spec_record(l) == Err::<NuclideView, ErrView>(ErrView::TooShortLine),
{
}

/// A line shorter than the longest required column range never yields a
/// record: some error is produced for it.
pub proof fn lemma_truncated_line_errs(l: Seq<u8>)
    requires
        l.len() < 123,
    ensures
        spec_record(l) is Err,
{
}

/// A continuation byte of a multi-byte character at the end of the neutron
/// column straddles that column's boundary and yields `StrIndex`.
pub proof fn lemma_straddled_boundary(l: Seq<u8>)
    requires
        9 < l.len(),
        is_cont_byte(l[9]),
    ensures
        spec_record(l) == Err::<NuclideView, ErrView>(ErrView::StrIndex),
{
}

} // verus!

