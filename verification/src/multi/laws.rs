//! What holds of every search, whatever the decoder answers.

use vstd::prelude::*;
use crate::exceptions::Exceptions;
use crate::multi::duplicates::{absorbed, is_duplicate, is_same_code, no_duplicates};
use crate::multi::regions::spec_sub_regions;
use crate::multi::trace::{
    child_frame,
    root_frame,
    search_result,
    translated,
    Frame,
    Trace,
    MAX_DEPTH,
};
use crate::rxing_result::RXingResultView;

verus! {

/// The detections that are held once all of `offered` have been offered, one
/// after the other, where `found` were held before.
pub open spec fn absorbed_all(found: Seq<RXingResultView>, offered: Seq<RXingResultView>) -> Seq<
    RXingResultView,
>
    decreases offered.len(),
{
    if offered.len() == 0 {
        found
    } else {
        absorbed_all(absorbed(found, offered.first()), offered.drop_first())
    }
}

/// The greatest number of calls of the decoder in the search of a region
/// that was cut out of the image in `depth` steps: one for the region, and
/// those for its four parts.
pub open spec fn max_decode_calls(depth: int) -> nat
    decreases MAX_DEPTH + 1 - depth,
{
    if depth > MAX_DEPTH {
        0
    } else {
        1 + 4 * max_decode_calls(depth + 1)
    }
}

/// Offering one sequence after another is offering the two joined.
pub proof fn lemma_absorbed_all_joined(
    found: Seq<RXingResultView>,
    first: Seq<RXingResultView>,
    second: Seq<RXingResultView>,
)
    ensures
        absorbed_all(found, first + second) == absorbed_all(absorbed_all(found, first), second),
    decreases first.len(),
{
    if first.len() == 0 {
        assert(first + second =~= second);
    } else {
        assert((first + second).drop_first() =~= first.drop_first() + second);
        lemma_absorbed_all_joined(absorbed(found, first.first()), first.drop_first(), second);
    }
}

/// Offering a sequence of one detection is offering that detection.
pub proof fn lemma_absorbed_all_single(found: Seq<RXingResultView>, offered: RXingResultView)
    ensures
        absorbed_all(found, seq![offered]) == absorbed(found, offered),
{
    reveal_with_fuel(absorbed_all, 2);
    assert(seq![offered].drop_first() =~= Seq::<RXingResultView>::empty());
}

/// Offering detections keeps what was held, in its order, and adds no more
/// than was offered.
pub proof fn lemma_absorbed_all_extends(found: Seq<RXingResultView>, offered: Seq<RXingResultView>)
    ensures
        found.len() <= absorbed_all(found, offered).len() <= found.len() + offered.len(),
        absorbed_all(found, offered).take(found.len() as int) == found,
    decreases offered.len(),
{
    if offered.len() == 0 {
        assert(found.take(found.len() as int) =~= found);
    } else {
        let next = absorbed(found, offered.first());
        lemma_absorbed_all_extends(next, offered.drop_first());
        assert(next.take(found.len() as int) =~= found);
        assert(absorbed_all(found, offered).take(found.len() as int) =~= absorbed_all(
            found,
            offered,
        ).take(next.len() as int).take(found.len() as int));
    }
}

/// A store without duplicates has none after detections were offered.
pub proof fn lemma_absorbed_all_keeps_no_duplicates(
    found: Seq<RXingResultView>,
    offered: Seq<RXingResultView>,
)
    requires
        no_duplicates(found),
    ensures
        no_duplicates(absorbed_all(found, offered)),
    decreases offered.len(),
{
    if offered.len() > 0 {
        crate::multi::duplicates::lemma_absorbed_keeps_no_duplicates(found, offered.first());
        lemma_absorbed_all_keeps_no_duplicates(
            absorbed(found, offered.first()),
            offered.drop_first(),
        );
    }
}

/// Where no detection is taken for a code that was held or offered before
/// it, every detection that is offered is added, in the order of offering.
pub proof fn lemma_absorbed_all_of_separate_codes(
    found: Seq<RXingResultView>,
    offered: Seq<RXingResultView>,
)
    requires
        no_duplicates(found + offered),
    ensures
        absorbed_all(found, offered) == found + offered,
    decreases offered.len(),
{
    let all = found + offered;
    if offered.len() == 0 {
        assert(all =~= found);
    } else {
        let next = offered.first();
        if is_duplicate(found, next) {
            let i = choose|i: int| 0 <= i < found.len() && is_same_code(#[trigger] found[i], next);
            assert(all[i] == found[i]);
            assert(all[found.len() as int] == next);
            assert(false);
        }
        assert(found.push(next) + offered.drop_first() =~= all);
        lemma_absorbed_all_of_separate_codes(found.push(next), offered.drop_first());
    }
}

/// A search offers the detections of the decoder in the order in which they
/// were reported: first that in a region, then those in the parts left of
/// it, above it, right of it and below it.
pub proof fn lemma_replay_offers_detections(trace: Trace, frame: Frame, found: Seq<RXingResultView>)
    ensures
        trace.replay(frame, found) == absorbed_all(found, trace.detections(frame)),
    decreases trace,
{
    match trace {
        Trace::Skipped => {},
        Trace::Failed => {},
        Trace::Found { detection, left, top, right, bottom } => {
            let parts = spec_sub_regions(detection.points, frame.width, frame.height);
            let moved = translated(detection, frame.x_offset, frame.y_offset);
            let own = absorbed(found, moved);
            let from_left = left.detections_in_part(frame, parts.left);
            let from_top = top.detections_in_part(frame, parts.top);
            let from_right = right.detections_in_part(frame, parts.right);
            let from_bottom = bottom.detections_in_part(frame, parts.bottom);
            let after_left = absorbed_all(own, from_left);
            let after_top = absorbed_all(after_left, from_top);
            let after_right = absorbed_all(after_top, from_right);
            if let Some(part) = parts.left {
                lemma_replay_offers_detections(*left, child_frame(frame, part), own);
            }
            if let Some(part) = parts.top {
                lemma_replay_offers_detections(*top, child_frame(frame, part), after_left);
            }
            if let Some(part) = parts.right {
                lemma_replay_offers_detections(*right, child_frame(frame, part), after_top);
            }
            if let Some(part) = parts.bottom {
                lemma_replay_offers_detections(*bottom, child_frame(frame, part), after_right);
            }
            lemma_absorbed_all_single(found, moved);
            lemma_absorbed_all_joined(found, seq![moved], from_left);
            lemma_absorbed_all_joined(found, seq![moved] + from_left, from_top);
            lemma_absorbed_all_joined(found, seq![moved] + from_left + from_top, from_right);
            lemma_absorbed_all_joined(
                found,
                seq![moved] + from_left + from_top + from_right,
                from_bottom,
            );
        },
    }
}

/// The store of a search never holds two detections of which the later is
/// taken for the code of the earlier, if it held none before the search.
pub proof fn lemma_search_keeps_no_duplicates(
    trace: Trace,
    frame: Frame,
    found: Seq<RXingResultView>,
)
    requires
        no_duplicates(found),
    ensures
        no_duplicates(trace.replay(frame, found)),
{
    lemma_replay_offers_detections(trace, frame, found);
    lemma_absorbed_all_keeps_no_duplicates(found, trace.detections(frame));
}

/// A search keeps what was held before it, in its order, and adds no more
/// detections than the decoder reported.
pub proof fn lemma_search_extends(trace: Trace, frame: Frame, found: Seq<RXingResultView>)
    ensures
        found.len() <= trace.replay(frame, found).len() <= found.len() + trace.detections(
            frame,
        ).len(),
        trace.replay(frame, found).take(found.len() as int) == found,
{
    lemma_replay_offers_detections(trace, frame, found);
    lemma_absorbed_all_extends(found, trace.detections(frame));
}

/// Where the decoder reports codes of which none is taken for another, a
/// search that starts with nothing held returns every one of them, in the
/// order in which they were reported.
pub proof fn lemma_separate_codes_all_returned(trace: Trace, frame: Frame)
    requires
        no_duplicates(trace.detections(frame)),
    ensures
        trace.replay(frame, Seq::empty()) == trace.detections(frame),
{
    let nothing = Seq::<RXingResultView>::empty();
    lemma_replay_offers_detections(trace, frame, nothing);
    assert(nothing + trace.detections(frame) =~= trace.detections(frame));
    lemma_absorbed_all_of_separate_codes(nothing, trace.detections(frame));
}

/// Moving a detection changes its points and nothing else, and keeps their number.
pub proof fn lemma_translated_keeps_contents(detection: RXingResultView, dx: int, dy: int)
    ensures
        translated(detection, dx, dy).text == detection.text,
        translated(detection, dx, dy).raw_bytes == detection.raw_bytes,
        translated(detection, dx, dy).num_bits == detection.num_bits,
        translated(detection, dx, dy).format == detection.format,
        translated(detection, dx, dy).metadata == detection.metadata,
        translated(detection, dx, dy).timestamp == detection.timestamp,
        translated(detection, dx, dy).points.len() == detection.points.len(),
{
}

/// Moving a detection by nothing leaves it as it is.
pub proof fn lemma_translated_by_nothing(detection: RXingResultView)
    ensures
        translated(detection, 0, 0) == detection,
{
    assert(translated(detection, 0, 0).points =~= detection.points);
}

/// The search of a region calls the decoder no more often than the depth of
/// the region allows: 87381 times for a whole image.
pub proof fn lemma_decode_calls_bounded(trace: Trace, frame: Frame)
    requires
        trace.fits(frame),
    ensures
        trace.decode_calls() <= max_decode_calls(frame.depth),
        max_decode_calls(0) == 87381,
    decreases trace,
{
    assert(max_decode_calls(0) == 87381) by {
        reveal_with_fuel(max_decode_calls, 11);
    }
    reveal_with_fuel(Trace::decode_calls, 2);
    match trace {
        Trace::Skipped => {},
        Trace::Failed => {},
        Trace::Found { detection, left, top, right, bottom } => {
            let parts = spec_sub_regions(detection.points, frame.width, frame.height);
            if let Some(part) = parts.left {
                lemma_decode_calls_bounded(*left, child_frame(frame, part));
            }
            if let Some(part) = parts.top {
                lemma_decode_calls_bounded(*top, child_frame(frame, part));
            }
            if let Some(part) = parts.right {
                lemma_decode_calls_bounded(*right, child_frame(frame, part));
            }
            if let Some(part) = parts.bottom {
                lemma_decode_calls_bounded(*bottom, child_frame(frame, part));
            }
        },
    }
}

/// The decoder reports no more detections than it is called.
pub proof fn lemma_detections_counted(trace: Trace, frame: Frame)
    ensures
        trace.detections(frame).len() <= trace.decode_calls(),
    decreases trace,
{
    match trace {
        Trace::Skipped => {},
        Trace::Failed => {},
        Trace::Found { detection, left, top, right, bottom } => {
            let parts = spec_sub_regions(detection.points, frame.width, frame.height);
            if let Some(part) = parts.left {
                lemma_detections_counted(*left, child_frame(frame, part));
            }
            if let Some(part) = parts.top {
                lemma_detections_counted(*top, child_frame(frame, part));
            }
            if let Some(part) = parts.right {
                lemma_detections_counted(*right, child_frame(frame, part));
            }
            if let Some(part) = parts.bottom {
                lemma_detections_counted(*bottom, child_frame(frame, part));
            }
        },
    }
}

/// A search keeps what was held before it, in its order, adds no more
/// detections than the depth of the region allows calls of the decoder, and
/// leaves a store without duplicates without duplicates.
pub proof fn lemma_search_step(trace: Trace, frame: Frame, found: Seq<RXingResultView>)
    requires
        trace.fits(frame),
    ensures
        found.len() <= trace.replay(frame, found).len() <= found.len() + max_decode_calls(
            frame.depth,
        ),
        trace.replay(frame, found).take(found.len() as int) == found,
        no_duplicates(found) ==> no_duplicates(trace.replay(frame, found)),
{
    lemma_search_extends(trace, frame, found);
    lemma_detections_counted(trace, frame);
    lemma_decode_calls_bounded(trace, frame);
    if no_duplicates(found) {
        lemma_search_keeps_no_duplicates(trace, frame, found);
    }
}

/// Where the decoder finds nothing in the image, the search reports that
/// nothing was found.
pub proof fn lemma_nothing_found(trace: Trace, width: u32, height: u32)
    requires
        trace.never_found(),
    ensures
        search_result(trace.replay(root_frame(width, height), Seq::empty())) == Err::<
            Seq<RXingResultView>,
            Exceptions,
        >(Exceptions::NotFound),
{
}

/// Where the decoder finds a code in the image and nothing in any part of
/// it, the search returns that one detection as the decoder gave it.
pub proof fn lemma_found_once(trace: Trace, width: u32, height: u32)
    requires
        trace matches Trace::Found { left, top, right, bottom, .. } && left.never_found()
            && top.never_found() && right.never_found() && bottom.never_found(),
    ensures
        search_result(trace.replay(root_frame(width, height), Seq::empty())) == Ok::<
            Seq<RXingResultView>,
            Exceptions,
        >(seq![trace->detection]),
{
    reveal_with_fuel(Trace::replay, 2);
    let detection = trace->detection;
    lemma_translated_by_nothing(detection);
    let nothing = Seq::<RXingResultView>::empty();
    assert(absorbed(nothing, detection) =~= seq![detection]);
}

} // verus!
