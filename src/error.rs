use vstd::prelude::*;

verus! {

/// The ways an operation on a mapping or on its records can fail.
#[derive(Debug, Clone, Copy, PartialEq, Eq, Structural)]
pub enum MmapError {
    /// The operating system refused to create the mapping (a zero length,
    /// flags it rejects, or a lack of resources).
    AllocationError,
    /// The backing file could not be set to the size the mapping needs.
    FileResizeError,
    /// A record index at or past the number of records.
    IndexOutOfRange { index: usize, len: usize },
}

} // verus!
