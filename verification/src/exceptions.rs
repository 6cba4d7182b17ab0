//! The ways in which reading a code can fail.

use vstd::prelude::*;

verus! {

/// Why no detection was returned.
#[derive(Clone, Copy, Debug, PartialEq, Eq, Hash, Structural)]
pub enum Exceptions {
    /// No code was found in the region that was searched.
    NotFound,
    /// A code was found, but its contents do not follow the rules of its format.
    Format,
    /// A code was found and read, but its checksum does not match its contents.
    Checksum,
}

} // verus!
