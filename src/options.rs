use vstd::prelude::*;

verus! {

/// How a mapping is created: its protection, what backs it, and how its
/// writes are shared.
#[derive(Debug, Clone, Copy, PartialEq, Eq, Structural)]
pub enum MapOption {
    /// The records can be read.
    MapReadable,
    /// The records can be written.
    MapWritable,
    /// The records can be executed.
    MapExecutable,
    /// The mapping shows the file with this descriptor.
    MapFd(i32),
    /// With `MapFd`: the mapping starts this many bytes into the file.
    MapOffset(usize),
    /// The operating system's own mapping flags, in place of the defaults
    /// (private, and anonymous when no file is given).
    MapNonStandardFlags(i32),
    /// Writes reach the backing file and every other mapping of it, rather
    /// than a private copy.
    MapShared,
}

} // verus!
