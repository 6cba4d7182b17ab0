//! What a decoder reports when it has found and read a code.

use vstd::prelude::*;
use crate::barcode_format::BarcodeFormat;
use crate::point::Point;
use crate::result_metadata::{
    RXingResultMetadata,
    RXingResultMetadataType,
    RXingResultMetadataValue,
};

verus! {

/// One detection: the contents of a code, and where in the image it lies.
#[allow(non_snake_case)]
#[derive(Debug)]
pub struct RXingResult {
    /// The text that the code encodes.
    pub text: String,
    /// The bytes that the code encodes, where the decoder hands them out.
    pub rawBytes: Option<Vec<u8>>,
    /// How many bits of the raw bytes are valid.
    pub numBits: usize,
    /// Points that locate the code, in the coordinates of the region that was
    /// decoded: none, three, or four and more, depending on the format.
    pub resultPoints: Vec<Point>,
    /// The format of the code.
    pub format: BarcodeFormat,
    /// Annotations by the decoder.
    pub resultMetadata: RXingResultMetadata,
    /// When the code was read.
    pub timestamp: u128,
}

/// The mathematical value of a detection.
pub struct RXingResultView {
    pub text: Seq<char>,
    pub raw_bytes: Option<Seq<u8>>,
    pub num_bits: nat,
    pub points: Seq<Point>,
    pub format: BarcodeFormat,
    pub metadata: Map<RXingResultMetadataType, RXingResultMetadataValue>,
    pub timestamp: nat,
}

/// The value of an optional byte vector.
pub open spec fn bytes_view(bytes: Option<Vec<u8>>) -> Option<Seq<u8>> {
    match bytes {
        Some(v) => Some(v@),
        None => None,
    }
}

impl View for RXingResult {
    type V = RXingResultView;

    open spec fn view(&self) -> RXingResultView {
        RXingResultView {
            text: self.text@,
            raw_bytes: bytes_view(self.rawBytes),
            num_bits: self.numBits as nat,
            points: self.resultPoints@,
            format: self.format,
            metadata: self.resultMetadata@,
            timestamp: self.timestamp as nat,
        }
    }
}

impl Clone for RXingResult {
    fn clone(&self) -> (copy: Self)
        ensures
            copy@ == self@,
    {
        let bytes = match &self.rawBytes {
            Some(bytes) => Some(bytes.clone()),
            None => None,
        };
        let points = self.resultPoints.clone();
        proof {
            assert(points@ =~= self.resultPoints@);
            assert(bytes_view(bytes) =~= bytes_view(self.rawBytes));
        }
        RXingResult {
            text: self.text.clone(),
            rawBytes: bytes,
            numBits: self.numBits,
            resultPoints: points,
            format: self.format,
            resultMetadata: self.resultMetadata.clone(),
            timestamp: self.timestamp,
        }
    }
}

/// The values of a sequence of detections, in the same order.
pub open spec fn views(results: Seq<RXingResult>) -> Seq<RXingResultView> {
    results.map_values(|r: RXingResult| r@)
}

impl RXingResult {
    /// A detection with the given contents and no annotations.
    #[allow(non_snake_case)]
    pub fn new_complex(
        text: &str,
        rawBytes: Option<Vec<u8>>,
        numBits: usize,
        resultPoints: Vec<Point>,
        format: BarcodeFormat,
        timestamp: u128,
    ) -> (r: RXingResult)
        ensures
            r@ == (RXingResultView {
                text: text@,
                raw_bytes: bytes_view(rawBytes),
                num_bits: numBits as nat,
                points: resultPoints@,
                format: format,
                metadata: Map::empty(),
                timestamp: timestamp as nat,
            }),
    {
        RXingResult {
            text: text.to_owned(),
            rawBytes,
            numBits,
            resultPoints,
            format,
            resultMetadata: RXingResultMetadata::new(),
            timestamp,
        }
    }

    /// The text that the code encodes.
    #[allow(non_snake_case)]
    pub fn getText(&self) -> (t: &str)
        ensures
            t@ == self@.text,
    {
        self.text.as_str()
    }

    /// The bytes that the code encodes, where the decoder handed them out.
    #[allow(non_snake_case)]
    pub fn getRawBytes(&self) -> (b: &Option<Vec<u8>>)
        ensures
            bytes_view(*b) == self@.raw_bytes,
    {
        &self.rawBytes
    }

    /// How many bits of the raw bytes are valid.
    #[allow(non_snake_case)]
    pub fn getNumBits(&self) -> (n: usize)
        ensures
            n == self@.num_bits,
    {
        self.numBits
    }

    /// When the code was read.
    #[allow(non_snake_case)]
    pub fn getTimestamp(&self) -> (t: u128)
        ensures
            t == self@.timestamp,
    {
        self.timestamp
    }

    /// The annotations of the detection.
    #[allow(non_snake_case)]
    pub fn getRXingResultMetadata(&self) -> (m: &RXingResultMetadata)
        ensures
            m@ == self@.metadata,
    {
        &self.resultMetadata
    }

    /// Gives the annotation `key` the value `value`.
    #[allow(non_snake_case)]
    pub fn putMetadata(&mut self, key: RXingResultMetadataType, value: RXingResultMetadataValue)
        ensures
            final(self)@ == (RXingResultView {
                metadata: old(self)@.metadata.insert(key, value),
                ..old(self)@
            }),
    {
        self.resultMetadata.put(key, value);
    }

    /// Adds the annotations `metadata` to those of this detection. Where a
    /// key has a value in both, the value of `metadata` stays.
    #[allow(non_snake_case)]
    pub fn putAllMetadata(&mut self, metadata: RXingResultMetadata)
        ensures
            final(self)@ == (RXingResultView {
                metadata: old(self)@.metadata.union_prefer_right(metadata@),
                ..old(self)@
            }),
    {
        self.resultMetadata.put_all(metadata);
    }

    /// The points that locate the code.
    #[allow(non_snake_case)]
    pub fn getPoints(&self) -> (p: &Vec<Point>)
        ensures
            p@ == self@.points,
    {
        &self.resultPoints
    }

    /// The format of the code.
    #[allow(non_snake_case)]
    pub fn getBarcodeFormat(&self) -> (f: &BarcodeFormat)
        ensures
            *f == self@.format,
    {
        &self.format
    }
}

} // verus!
