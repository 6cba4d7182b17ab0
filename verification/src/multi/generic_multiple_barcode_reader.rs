//! The recursive search that finds several codes with a decoder that finds one.

use vstd::prelude::*;
use crate::binary_bitmap::BinaryBitmap;
use crate::exceptions::Exceptions;
use crate::multi::duplicates::{no_duplicates, record};
use crate::multi::laws::{lemma_search_step, max_decode_calls};
use crate::multi::multiple_barcode_reader::MultipleBarcodeReader;
use crate::multi::regions::{lemma_sub_regions_lie_within, lies_within, sub_regions, Region};
use crate::multi::trace::{
    is_search_outcome,
    is_search_step,
    root_frame,
    translated,
    Frame,
    Trace,
    MAX_DEPTH,
};
use crate::point::Point;
use crate::reader::{DecodingHintDictionary, Reader};
use crate::rxing_result::{views, RXingResult, RXingResultView};

verus! {

/// Finds several codes in an image by decoding parts of it again and again:
/// after a code is found, the areas left of it, above it, right of it and
/// below it are searched in turn.
///
/// Where the presence of several codes keeps the decoder from finding any of
/// them, a decoder that itself looks at parts of the image serves better.
pub struct GenericMultipleBarcodeReader<T: Reader>(pub T);

/// The frame of the region `image`, placed by the offsets and cut out in
/// `depth` steps.
pub open spec fn frame_of<S>(
    image: &BinaryBitmap<S>,
    x_offset: u32,
    y_offset: u32,
    depth: u32,
) -> Frame {
    Frame {
        width: image.spec_width(),
        height: image.spec_height(),
        x_offset: x_offset as int,
        y_offset: y_offset as int,
        depth: depth as int,
    }
}

/// The values of the detections that a search returns, or its failure.
pub open spec fn outcome_view(outcome: Result<Vec<RXingResult>, Exceptions>) -> Result<
    Seq<RXingResultView>,
    Exceptions,
> {
    match outcome {
        Ok(found) => Ok(views(found@)),
        Err(e) => Err(e),
    }
}

impl<T: Reader + Default> Default for GenericMultipleBarcodeReader<T> {
    /// A search that decodes with the default decoder of its kind.
    fn default() -> (r: Self)
        ensures
            call_ensures(T::default, (), r.0),
    {
        GenericMultipleBarcodeReader(T::default())
    }
}

impl<T: Reader> GenericMultipleBarcodeReader<T> {
    /// A search that decodes with `delegate`.
    pub fn new(delegate: T) -> (r: Self)
        ensures
            r.0 == delegate,
    {
        GenericMultipleBarcodeReader(delegate)
    }

    /// Moves the points of `result` right by `xOffset` and down by `yOffset`
    /// pixels and leaves all else as it is: text, bytes, bit count, format,
    /// time and annotations.
    #[allow(non_snake_case)]
    pub fn translatePoints(result: RXingResult, xOffset: u32, yOffset: u32) -> (moved: RXingResult)
        ensures
            moved@ == translated(result@, xOffset as int, yOffset as int),
    {
        if result.resultPoints.len() == 0 {
            assert(translated(result@, xOffset as int, yOffset as int).points =~= result@.points);
            return result;
        }
        let mut new_points: Vec<Point> = Vec::new();
        let mut i: usize = 0;
        while i < result.resultPoints.len()
            invariant
                i <= result.resultPoints@.len(),
                new_points@.len() == i,
                forall|j: int|
                    0 <= j < i ==> new_points@[j] == result.resultPoints@[j].spec_translated(
                        xOffset as int,
                        yOffset as int,
                    ),
            decreases result.resultPoints@.len() - i,
        {
            new_points.push(result.resultPoints[i].translated(xOffset, yOffset));
            i += 1;
        }
        let ghost before = result@;
        let mut moved = RXingResult::new_complex(
            result.text.as_str(),
            result.rawBytes,
            result.numBits,
            new_points,
            result.format,
            result.timestamp,
        );
        moved.putAllMetadata(result.resultMetadata);
        proof {
            let expected = translated(before, xOffset as int, yOffset as int);
            assert(moved@.points =~= expected.points);
            assert(moved@.metadata =~= expected.metadata);
        }
        moved
    }

    /// Searches `image` and, in turn, the parts of it that lie left of,
    /// above, right of and below the code that was found in it.
    ///
    /// `xOffset` and `yOffset` place `image` in the picture that the points
    /// of the detections refer to, and `currentDepth` says in how many steps
    /// it was cut out. Each detection is offered to `results` with its points
    /// moved by the offsets, and is added unless it is taken for a code that
    /// `results` holds already. Nothing is done if `currentDepth` is greater
    /// than [`MAX_DEPTH`].
    #[allow(non_snake_case)]
    pub fn do_decode_multiple(
        &mut self,
        image: &BinaryBitmap<T::Source>,
        hints: &DecodingHintDictionary,
        results: &mut Vec<RXingResult>,
        xOffset: u32,
        yOffset: u32,
        currentDepth: u32,
    )
        requires
            xOffset + image.spec_width() <= u32::MAX,
            yOffset + image.spec_height() <= u32::MAX,
        ensures
            is_search_step(
                frame_of(image, xOffset, yOffset, currentDepth),
                views(old(results)@),
                views(final(results)@),
            ),
            currentDepth > MAX_DEPTH ==> final(results)@ == old(results)@,
            old(results)@.len() <= final(results)@.len() <= old(results)@.len() + max_decode_calls(
                currentDepth as int,
            ),
            final(results)@.take(old(results)@.len() as int) == old(results)@,
            no_duplicates(views(old(results)@)) ==> no_duplicates(views(final(results)@)),
    {
        let trace = self.search(image, hints, results, xOffset, yOffset, currentDepth);
        proof {
            lemma_search_step(
                trace@,
                frame_of(image, xOffset, yOffset, currentDepth),
                views(old(results)@),
            );
        }
    }

    /// Does what [`Self::do_decode_multiple`] does, and hands out the
    /// answers that the decoder gave.
    fn search(
        &mut self,
        image: &BinaryBitmap<T::Source>,
        hints: &DecodingHintDictionary,
        results: &mut Vec<RXingResult>,
        x_offset: u32,
        y_offset: u32,
        depth: u32,
    ) -> (trace: Ghost<Trace>)
        requires
            x_offset + image.spec_width() <= u32::MAX,
            y_offset + image.spec_height() <= u32::MAX,
        ensures
            trace@.fits(frame_of(image, x_offset, y_offset, depth)),
            views(final(results)@) == trace@.replay(
                frame_of(image, x_offset, y_offset, depth),
                views(old(results)@),
            ),
            old(results)@.len() <= final(results)@.len(),
            final(results)@.take(old(results)@.len() as int) == old(results)@,
        decreases MAX_DEPTH + 1 - depth, 1int,
    {
        assert(results@.take(results@.len() as int) =~= results@);
        if depth > MAX_DEPTH {
            return Ghost(Trace::Skipped);
        }
        let result = match self.0.decode_with_hints(image, hints) {
            Ok(result) => result,
            Err(_) => {
                return Ghost(Trace::Failed);
            },
        };
        let ghost detection = result@;
        let width = image.get_width();
        let height = image.get_height();
        let parts = sub_regions(&result.resultPoints, width, height);
        proof {
            lemma_sub_regions_lie_within(detection.points, width, height);
        }
        let possible_new_result = Self::translatePoints(result, x_offset, y_offset);
        record(results, possible_new_result);
        assert(results@.take(old(results)@.len() as int) =~= old(results)@);

        let (x, y) = (x_offset, y_offset);
        let left = self.search_part(image, hints, results, parts.left, x, y, depth);
        let top = self.search_part(image, hints, results, parts.top, x, y, depth);
        let right = self.search_part(image, hints, results, parts.right, x, y, depth);
        let bottom = self.search_part(image, hints, results, parts.bottom, x, y, depth);
        Ghost(
            Trace::Found {
                detection,
                left: Box::new(left@),
                top: Box::new(top@),
                right: Box::new(right@),
                bottom: Box::new(bottom@),
            },
        )
    }

    /// Searches the part `part` of `image`, if there is one.
    fn search_part(
        &mut self,
        image: &BinaryBitmap<T::Source>,
        hints: &DecodingHintDictionary,
        results: &mut Vec<RXingResult>,
        part: Option<Region>,
        x_offset: u32,
        y_offset: u32,
        depth: u32,
    ) -> (trace: Ghost<Trace>)
        requires
            x_offset + image.spec_width() <= u32::MAX,
            y_offset + image.spec_height() <= u32::MAX,
            lies_within(part, image.spec_width(), image.spec_height()),
            depth <= MAX_DEPTH,
        ensures
            trace@.fits_part(frame_of(image, x_offset, y_offset, depth), part),
            views(final(results)@) == trace@.replay_part(
                frame_of(image, x_offset, y_offset, depth),
                part,
                views(old(results)@),
            ),
            old(results)@.len() <= final(results)@.len(),
            final(results)@.take(old(results)@.len() as int) == old(results)@,
        decreases MAX_DEPTH + 1 - depth, 0int,
    {
        match part {
            Some(part) => {
                let region = image.crop(part.left, part.top, part.width, part.height);
                self.search(
                    &region,
                    hints,
                    results,
                    x_offset + part.left,
                    y_offset + part.top,
                    depth + 1,
                )
            },
            None => {
                assert(results@.take(results@.len() as int) =~= results@);
                Ghost(Trace::Skipped)
            },
        }
    }
}

impl<T: Reader> MultipleBarcodeReader for GenericMultipleBarcodeReader<T> {
    type Source = T::Source;

    /// Searches the whole of `image` without hints.
    fn decode_multiple(&mut self, image: &BinaryBitmap<T::Source>) -> (outcome: Result<
        Vec<RXingResult>,
        Exceptions,
    >)
        ensures
            is_search_outcome(image.spec_width(), image.spec_height(), outcome_view(outcome)),
            match outcome {
                Ok(found) => 0 < found@.len() <= max_decode_calls(0) && no_duplicates(
                    views(found@),
                ),
                Err(e) => e == Exceptions::NotFound,
            },
    {
        self.decode_multiple_with_hints(image, &DecodingHintDictionary::new())
    }

    /// Searches the whole of `image` and hands `hints` to every call of the
    /// decoder. Returns the detections in the order in which they were
    /// found, or [`Exceptions::NotFound`] if there is none.
    fn decode_multiple_with_hints(
        &mut self,
        image: &BinaryBitmap<T::Source>,
        hints: &DecodingHintDictionary,
    ) -> (outcome: Result<Vec<RXingResult>, Exceptions>)
        ensures
            is_search_outcome(image.spec_width(), image.spec_height(), outcome_view(outcome)),
            match outcome {
                Ok(found) => 0 < found@.len() <= max_decode_calls(0) && no_duplicates(
                    views(found@),
                ),
                Err(e) => e == Exceptions::NotFound,
            },
    {
        let mut results: Vec<RXingResult> = Vec::new();
        let trace = self.search(image, hints, &mut results, 0, 0, 0);
        proof {
            let root = root_frame(image.spec_width(), image.spec_height());
            assert(views(Seq::<RXingResult>::empty()) =~= Seq::<RXingResultView>::empty());
            assert(trace@.fits(root));
            lemma_search_step(trace@, root, Seq::empty());
        }
        if results.len() == 0 {
            return Err(Exceptions::NotFound);
        }
        Ok(results)
    }
}

} // verus!
