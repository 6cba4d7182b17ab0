//! What a search does, told as a function of the answers that the decoder gives.
//!
//! Nothing is known of a decoder but the answers it gives. A [`Trace`] holds
//! the answers of one search in the shape of the search itself, and the spec
//! functions here say which regions are decoded and which detections are
//! reported, whatever the answers are.

use vstd::prelude::*;
use crate::exceptions::Exceptions;
use crate::multi::duplicates::absorbed;
use crate::multi::regions::{spec_sub_regions, Region};
use crate::rxing_result::RXingResultView;

verus! {

/// The search goes no deeper than this: a region that was cut out of the
/// image in more than this many steps is not decoded.
pub const MAX_DEPTH: u32 = 8;

/// A region as the search sees it: its size, what is added to the points of
/// a detection in it to place them in the image, and in how many steps it
/// was cut out of the image.
pub struct Frame {
    pub width: u32,
    pub height: u32,
    pub x_offset: int,
    pub y_offset: int,
    pub depth: int,
}

/// The whole image, where the search starts.
pub open spec fn root_frame(width: u32, height: u32) -> Frame {
    Frame { width, height, x_offset: 0, y_offset: 0, depth: 0 }
}

/// The frame of the part `part` of the region with the frame `frame`.
pub open spec fn child_frame(frame: Frame, part: Region) -> Frame {
    Frame {
        width: part.width,
        height: part.height,
        x_offset: frame.x_offset + part.left,
        y_offset: frame.y_offset + part.top,
        depth: frame.depth + 1,
    }
}

/// The detection `detection` with its points moved right by `dx` and down by
/// `dy` pixels, and all else as it was.
pub open spec fn translated(detection: RXingResultView, dx: int, dy: int) -> RXingResultView {
    RXingResultView {
        points: detection.points.map_values(|p: crate::point::Point| p.spec_translated(dx, dy)),
        ..detection
    }
}

/// The answers of the decoder in the search of one region.
pub enum Trace {
    /// The region was not decoded.
    Skipped,
    /// The region was decoded, and the decoder found nothing.
    Failed,
    /// The region was decoded and the decoder reported `detection`; the
    /// other fields hold the searches of the parts left of the detection,
    /// above, right of and below it.
    Found {
        detection: RXingResultView,
        left: Box<Trace>,
        top: Box<Trace>,
        right: Box<Trace>,
        bottom: Box<Trace>,
    },
}

impl Trace {
    /// Whether this is the trace of a search of a region with the frame
    /// `frame`: a region is decoded if and only if it is no deeper than
    /// [`MAX_DEPTH`], and after a detection exactly those parts of the region
    /// are searched that [`spec_sub_regions`] names.
    pub open spec fn fits(self, frame: Frame) -> bool
        decreases self, 0int,
    {
        match self {
            Trace::Skipped => frame.depth > MAX_DEPTH,
            Trace::Failed => frame.depth <= MAX_DEPTH,
            Trace::Found { detection, left, top, right, bottom } => {
                let parts = spec_sub_regions(detection.points, frame.width, frame.height);
                &&& frame.depth <= MAX_DEPTH
                &&& left.fits_part(frame, parts.left)
                &&& top.fits_part(frame, parts.top)
                &&& right.fits_part(frame, parts.right)
                &&& bottom.fits_part(frame, parts.bottom)
            },
        }
    }

    /// Whether this is the trace of what is done with one part of a region
    /// with the frame `frame`: a part that is present is searched, and
    /// nothing is decoded for one that is absent.
    pub open spec fn fits_part(self, frame: Frame, part: Option<Region>) -> bool
        decreases self, 1int,
    {
        match part {
            Some(part) => self.fits(child_frame(frame, part)),
            None => self is Skipped,
        }
    }

    /// The detections that are held after the search of a region with the
    /// frame `frame`, where `found` were held before it: the detection in
    /// the region itself is offered first, moved to its place in the image,
    /// then the parts left, above, right and below are searched in turn.
    pub open spec fn replay(self, frame: Frame, found: Seq<RXingResultView>) -> Seq<RXingResultView>
        decreases self, 0int,
    {
        match self {
            Trace::Skipped => found,
            Trace::Failed => found,
            Trace::Found { detection, left, top, right, bottom } => {
                let parts = spec_sub_regions(detection.points, frame.width, frame.height);
                let own = absorbed(found, translated(detection, frame.x_offset, frame.y_offset));
                let after_left = left.replay_part(frame, parts.left, own);
                let after_top = top.replay_part(frame, parts.top, after_left);
                let after_right = right.replay_part(frame, parts.right, after_top);
                bottom.replay_part(frame, parts.bottom, after_right)
            },
        }
    }

    /// The detections that are held after one part of a region with the
    /// frame `frame` was dealt with, where `found` were held before.
    pub open spec fn replay_part(
        self,
        frame: Frame,
        part: Option<Region>,
        found: Seq<RXingResultView>,
    ) -> Seq<RXingResultView>
        decreases self, 1int,
    {
        match part {
            Some(part) => self.replay(child_frame(frame, part), found),
            None => found,
        }
    }

    /// The detections that the decoder reported, each moved to its place in
    /// the image, in the order in which they were reported.
    pub open spec fn detections(self, frame: Frame) -> Seq<RXingResultView>
        decreases self, 0int,
    {
        match self {
            Trace::Skipped => Seq::empty(),
            Trace::Failed => Seq::empty(),
            Trace::Found { detection, left, top, right, bottom } => {
                let parts = spec_sub_regions(detection.points, frame.width, frame.height);
                seq![translated(detection, frame.x_offset, frame.y_offset)]
                    + left.detections_in_part(frame, parts.left)
                    + top.detections_in_part(frame, parts.top)
                    + right.detections_in_part(frame, parts.right)
                    + bottom.detections_in_part(frame, parts.bottom)
            },
        }
    }

    /// The detections that the decoder reported in one part of a region with
    /// the frame `frame`.
    pub open spec fn detections_in_part(self, frame: Frame, part: Option<Region>) -> Seq<
        RXingResultView,
    >
        decreases self, 1int,
    {
        match part {
            Some(part) => self.detections(child_frame(frame, part)),
            None => Seq::empty(),
        }
    }

    /// How often the decoder was called.
    pub open spec fn decode_calls(self) -> nat
        decreases self,
    {
        match self {
            Trace::Skipped => 0,
            Trace::Failed => 1,
            Trace::Found { detection, left, top, right, bottom } => 1 + left.decode_calls()
                + top.decode_calls() + right.decode_calls() + bottom.decode_calls(),
        }
    }

    /// Whether the decoder found nothing in any region that it was given.
    pub open spec fn never_found(self) -> bool {
        self is Skipped || self is Failed
    }
}

/// Whether a search of a region with the frame `frame` can change the
/// detections held from `before` to `after`: some answers of the decoder
/// lead from the one to the other.
pub open spec fn is_search_step(
    frame: Frame,
    before: Seq<RXingResultView>,
    after: Seq<RXingResultView>,
) -> bool {
    exists|trace: Trace| #[trigger] trace.fits(frame) && after == trace.replay(frame, before)
}

/// What a search reports that ends with `found`: the detections, or that
/// there is none.
pub open spec fn search_result(found: Seq<RXingResultView>) -> Result<
    Seq<RXingResultView>,
    Exceptions,
> {
    if found.len() == 0 {
        Err(Exceptions::NotFound)
    } else {
        Ok(found)
    }
}

/// Whether a search of a whole image of the given size, started with nothing
/// held, can report `outcome`.
pub open spec fn is_search_outcome(
    width: u32,
    height: u32,
    outcome: Result<Seq<RXingResultView>, Exceptions>,
) -> bool {
    exists|trace: Trace| #[trigger]
        trace.fits(root_frame(width, height)) && outcome == search_result(
            trace.replay(root_frame(width, height), Seq::empty()),
        )
}

} // verus!
