//! Finding several codes in one image with a decoder that finds one.

pub mod duplicates;
pub mod generic_multiple_barcode_reader;
pub mod laws;
pub mod multiple_barcode_reader;
pub mod regions;
pub mod trace;
