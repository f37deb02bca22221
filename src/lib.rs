//! A typed, bounds-checked view over a memory mapping: a region of mapped
//! bytes treated as an array of fixed-layout records, with a builder that
//! gathers the mapping's capacity, options and backing file, and sequential
//! and parallel traversal of the records.

use vstd::prelude::*;

pub mod buffer;
pub mod builder;
pub mod error;
pub mod laws;
pub mod options;
pub mod parallel;
pub mod region;

pub use buffer::EasyMmap;
pub use builder::{EasyMmapBuilder, TypedMapping};
pub use error::MmapError;
pub use options::MapOption;
pub use region::RawMapping;

verus! {

} // verus!
