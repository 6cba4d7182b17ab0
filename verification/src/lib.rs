//! Finds several optical codes in one image with a decoder that finds one.
//!
//! The search in [`multi`] hands a region of the image to the decoder, moves
//! the detection to its place in the image, drops it if it is taken for a
//! code that was found before, and goes on with the parts of the region left
//! of the detection, above it, right of it and below it, to a fixed depth.
//! Nothing is assumed of the decoder: what the search returns is stated for
//! every sequence of answers that a decoder can give.
//!
//! All geometry is exact integer arithmetic. Positions lie on a grid of
//! [`point::UNITS_PER_PIXEL`] units to the pixel, so that a point can lie
//! inside a pixel, and distances are compared by their squares. Besides the
//! search, the crate holds the canonical order of three pattern centres
//! ([`result_point_utils`]) and the matching and averaging of alignment
//! pattern estimates ([`alignment_pattern`]).

pub mod alignment_pattern;
pub mod barcode_format;
pub mod binary_bitmap;
pub mod exceptions;
pub mod multi;
pub mod point;
pub mod quadrilateral;
pub mod reader;
pub mod result_metadata;
pub mod result_point_utils;
pub mod rxing_result;
