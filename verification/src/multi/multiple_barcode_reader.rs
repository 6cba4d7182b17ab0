//! The interface of a reader that finds several codes in one image.

use vstd::prelude::*;
use crate::binary_bitmap::BinaryBitmap;
use crate::exceptions::Exceptions;
use crate::reader::DecodingHintDictionary;
use crate::rxing_result::RXingResult;

verus! {

/// A reader that looks for all the codes in an image.
pub trait MultipleBarcodeReader {
    /// The kind of image that the reader reads.
    type Source;

    /// Looks for codes in `image`, without hints.
    fn decode_multiple(&mut self, image: &BinaryBitmap<Self::Source>) -> Result<
        Vec<RXingResult>,
        Exceptions,
    >;

    /// Looks for codes in `image`, and hands `hints` to the decoder.
    fn decode_multiple_with_hints(
        &mut self,
        image: &BinaryBitmap<Self::Source>,
        hints: &DecodingHintDictionary,
    ) -> Result<Vec<RXingResult>, Exceptions>;
}

} // verus!
