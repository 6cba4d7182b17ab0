//! The rule by which a fresh detection is taken for a code that was found before.

use vstd::prelude::*;
use crate::point::Point;
use crate::quadrilateral::Quadrilateral;
use crate::rxing_result::{views, RXingResult, RXingResultView};

verus! {

/// The footprint that the first four points of a detection span.
pub open spec fn quadrilateral_of(points: Seq<Point>) -> Quadrilateral
    recommends
        points.len() >= 4,
{
    Quadrilateral { a: points[0], b: points[1], c: points[2], d: points[3] }
}

/// At least one of the points lies inside the quadrilateral.
pub open spec fn any_inside(q: Quadrilateral, points: Seq<Point>) -> bool {
    exists|i: int| 0 <= i < points.len() && q.spec_is_inside(#[trigger] points[i])
}

/// Whether `candidate` is taken for the code that `existing` reports.
///
/// Where both have a footprint, they are the same code if the bounding boxes
/// of the footprints intersect. Where only one has a footprint, they are the
/// same code if a point of the other lies inside it. Where neither has one,
/// they are the same code if text and format agree.
pub open spec fn is_same_code(existing: RXingResultView, candidate: RXingResultView) -> bool {
    if candidate.points.len() >= 4 {
        if existing.points.len() >= 4 {
            Quadrilateral::spec_have_intersecting_bounding_boxes(
                quadrilateral_of(candidate.points),
                quadrilateral_of(existing.points),
            )
        } else {
            any_inside(quadrilateral_of(candidate.points), existing.points)
        }
    } else {
        if existing.points.len() >= 4 {
            any_inside(quadrilateral_of(existing.points), candidate.points)
        } else {
            existing.text == candidate.text && existing.format == candidate.format
        }
    }
}

/// Whether `candidate` is taken for a code that one of `found` reports.
pub open spec fn is_duplicate(found: Seq<RXingResultView>, candidate: RXingResultView) -> bool {
    exists|i: int| 0 <= i < found.len() && is_same_code(#[trigger] found[i], candidate)
}

/// The detections that are held once `candidate` has been offered: it is
/// added at the end unless it is a duplicate.
pub open spec fn absorbed(found: Seq<RXingResultView>, candidate: RXingResultView) -> Seq<
    RXingResultView,
> {
    if is_duplicate(found, candidate) {
        found
    } else {
        found.push(candidate)
    }
}

/// No detection in the sequence is taken for a code that an earlier one reports.
pub open spec fn no_duplicates(found: Seq<RXingResultView>) -> bool {
    forall|i: int, j: int| 0 <= i < j < found.len() ==> !is_same_code(found[i], found[j])
}

/// The footprint that the first four points span.
pub fn quadrilateral(points: &Vec<Point>) -> (q: Quadrilateral)
    requires
        points@.len() >= 4,
    ensures
        q == quadrilateral_of(points@),
{
    Quadrilateral::new(points[0], points[1], points[2], points[3])
}

/// Whether at least one of `points` lies inside `q`.
pub fn any_point_inside(q: &Quadrilateral, points: &Vec<Point>) -> (inside: bool)
    ensures
        inside == any_inside(*q, points@),
{
    let mut i: usize = 0;
    while i < points.len()
        invariant
            i <= points@.len(),
            forall|j: int| 0 <= j < i ==> !q.spec_is_inside(#[trigger] points@[j]),
        decreases points@.len() - i,
    {
        if q.is_inside(points[i]) {
            return true;
        }
        i += 1;
    }
    false
}

/// Whether `candidate` is taken for the code that `existing` reports.
pub fn same_code(existing: &RXingResult, candidate: &RXingResult) -> (same: bool)
    ensures
        same == is_same_code(existing@, candidate@),
{
    if candidate.resultPoints.len() >= 4 {
        let q1 = quadrilateral(&candidate.resultPoints);
        if existing.resultPoints.len() >= 4 {
            let q2 = quadrilateral(&existing.resultPoints);
            Quadrilateral::have_intersecting_bounding_boxes(&q1, &q2)
        } else {
            any_point_inside(&q1, &existing.resultPoints)
        }
    } else {
        if existing.resultPoints.len() >= 4 {
            let q2 = quadrilateral(&existing.resultPoints);
            any_point_inside(&q2, &candidate.resultPoints)
        } else {
            existing.text == candidate.text && existing.format == candidate.format
        }
    }
}

/// Whether `candidate` is taken for a code that one of `results` reports.
pub fn already_found(results: &Vec<RXingResult>, candidate: &RXingResult) -> (found: bool)
    ensures
        found == is_duplicate(views(results@), candidate@),
{
    let mut i: usize = 0;
    while i < results.len()
        invariant
            i <= results@.len(),
            forall|j: int| 0 <= j < i ==> !is_same_code(#[trigger] views(results@)[j], candidate@),
        decreases results@.len() - i,
    {
        if same_code(&results[i], candidate) {
            assert(is_same_code(views(results@)[i as int], candidate@));
            return true;
        }
        i += 1;
    }
    false
}

/// Offers `candidate` to `results`: it is added at the end unless it is
/// taken for a code that `results` holds already.
pub fn record(results: &mut Vec<RXingResult>, candidate: RXingResult)
    ensures
        views(final(results)@) == absorbed(views(old(results)@), candidate@),
        final(results)@ == if is_duplicate(views(old(results)@), candidate@) {
            old(results)@
        } else {
            old(results)@.push(candidate)
        },
{
    if !already_found(results, &candidate) {
        results.push(candidate);
        assert(views(results@) =~= views(old(results)@).push(candidate@));
    }
}

/// A detection whose footprint's bounding box intersects that of a detection
/// held already is not added: the two collapse into the one that was first.
pub proof fn lemma_overlapping_footprints_collapse(
    found: Seq<RXingResultView>,
    i: int,
    candidate: RXingResultView,
)
    requires
        0 <= i < found.len(),
        found[i].points.len() >= 4,
        candidate.points.len() >= 4,
        Quadrilateral::spec_have_intersecting_bounding_boxes(
            quadrilateral_of(candidate.points),
            quadrilateral_of(found[i].points),
        ),
    ensures
        absorbed(found, candidate) == found,
{
    assert(is_same_code(found[i], candidate));
}

/// Two detections with intersecting bounding boxes, offered one after the
/// other to an empty store, leave one entry: the first.
pub proof fn lemma_two_overlapping_leave_one(first: RXingResultView, second: RXingResultView)
    requires
        first.points.len() >= 4,
        second.points.len() >= 4,
        Quadrilateral::spec_have_intersecting_bounding_boxes(
            quadrilateral_of(second.points),
            quadrilateral_of(first.points),
        ),
    ensures
        absorbed(absorbed(Seq::empty(), first), second) == seq![first],
{
    let held = absorbed(Seq::empty(), first);
    assert(held =~= seq![first]);
    lemma_overlapping_footprints_collapse(held, 0, second);
}

/// A store without duplicates has none after a detection was offered.
pub proof fn lemma_absorbed_keeps_no_duplicates(
    found: Seq<RXingResultView>,
    candidate: RXingResultView,
)
    requires
        no_duplicates(found),
    ensures
        no_duplicates(absorbed(found, candidate)),
{
    if !is_duplicate(found, candidate) {
        let after = found.push(candidate);
        assert forall|i: int, j: int| 0 <= i < j < after.len() implies !is_same_code(
            after[i],
            after[j],
        ) by {
            if j == found.len() {
                assert(after[i] == found[i]);
            }
        }
    }
}

} // verus!
