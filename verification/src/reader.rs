//! What the search asks of the decoder that it drives.

use vstd::prelude::*;
use crate::barcode_format::BarcodeFormat;
use crate::binary_bitmap::BinaryBitmap;
use crate::exceptions::Exceptions;
use crate::rxing_result::RXingResult;

verus! {

/// Settings that a caller passes to a decoder. The search hands them on
/// unchanged to every decoding attempt.
#[derive(Debug)]
pub struct DecodingHintDictionary {
    /// Spend more time to find a code.
    pub try_harder: bool,
    /// The image holds nothing but one code, upright and without border.
    pub pure_barcode: bool,
    /// The formats to look for; empty means all.
    pub possible_formats: Vec<BarcodeFormat>,
}

impl Clone for DecodingHintDictionary {
    fn clone(&self) -> (copy: Self)
        ensures
            copy.try_harder == self.try_harder,
            copy.pure_barcode == self.pure_barcode,
            copy.possible_formats@ == self.possible_formats@,
    {
        let formats = self.possible_formats.clone();
        assert(formats@ =~= self.possible_formats@);
        DecodingHintDictionary {
            try_harder: self.try_harder,
            pure_barcode: self.pure_barcode,
            possible_formats: formats,
        }
    }
}

impl Default for DecodingHintDictionary {
    /// No hints at all.
    fn default() -> (hints: Self)
        ensures
            !hints.try_harder,
            !hints.pure_barcode,
            hints.possible_formats@.len() == 0,
    {
        DecodingHintDictionary::new()
    }
}

impl DecodingHintDictionary {
    /// No hints at all.
    pub fn new() -> (hints: DecodingHintDictionary)
        ensures
            !hints.try_harder,
            !hints.pure_barcode,
            hints.possible_formats@.len() == 0,
    {
        DecodingHintDictionary {
            try_harder: false,
            pure_barcode: false,
            possible_formats: Vec::new(),
        }
    }
}

/// A decoder that finds and reads one code in a region of an image.
pub trait Reader {
    /// The kind of image that the decoder reads.
    type Source;

    /// Looks for a code in `image`. The points of a detection are in the
    /// coordinates of `image`: its top left corner is `(0, 0)`. Nothing is
    /// promised of the outcome.
    fn decode_with_hints(
        &mut self,
        image: &BinaryBitmap<Self::Source>,
        hints: &DecodingHintDictionary,
    ) -> Result<RXingResult, Exceptions>;
}

} // verus!
