use vstd::prelude::*;

use crate::error::MmapError;
use crate::options::MapOption;

verus! {

#[verifier::external_type_specification]
#[verifier::external_body]
pub struct ExMemoryMap(mmap::MemoryMap);

#[verifier::external_type_specification]
#[verifier::external_body]
pub struct ExMapError(mmap::MapError);

/// Relies on mmap::MemoryMap::new: it refuses a zero length, and otherwise
/// maps at least `min_len` bytes or reports why the system refused. Each
/// option is handed over as the variant of the same name; a shared mapping
/// is asked for with libc::MAP_SHARED as the mapping flags.
#[verifier::external_body]
fn map_memory(min_len: usize, options: &[MapOption]) -> (r: Result<mmap::MemoryMap, mmap::MapError>)
    requires
        min_len <= isize::MAX,
    ensures
        min_len == 0 ==> r is Err,
{
    let options: Vec<mmap::MapOption> = options.iter().map(|o| match *o {
        MapOption::MapReadable => mmap::MapOption::MapReadable,
        MapOption::MapWritable => mmap::MapOption::MapWritable,
        MapOption::MapExecutable => mmap::MapOption::MapExecutable,
        MapOption::MapFd(fd) => mmap::MapOption::MapFd(fd),
        MapOption::MapOffset(off) => mmap::MapOption::MapOffset(off),
        MapOption::MapNonStandardFlags(f) => mmap::MapOption::MapNonStandardFlags(f),
        MapOption::MapShared => mmap::MapOption::MapNonStandardFlags(libc::MAP_SHARED),
    }).collect();
    mmap::MemoryMap::new(min_len, &options)
}

/// An operating-system mapping of `byte_length` bytes, released when the
/// value is dropped.
pub struct RawMapping {
    map: mmap::MemoryMap,
    byte_length: usize,
    options: Vec<MapOption>,
}

impl RawMapping {
    /// The number of bytes the mapping was asked for.
    pub closed spec fn spec_byte_length(&self) -> nat {
        self.byte_length as nat
    }

    /// The options the mapping was created with.
    pub closed spec fn spec_options(&self) -> Seq<MapOption> {
        self.options@
    }

    /// Maps `byte_length` bytes with `options`. A zero length, or one past
    /// what an address space can hold, is refused without asking the system.
    pub fn create(byte_length: usize, options: &[MapOption]) -> (r: Result<RawMapping, MmapError>)
        ensures
            byte_length == 0 || byte_length > isize::MAX ==> r == Err::<RawMapping, MmapError>(
                MmapError::AllocationError,
            ),
            r matches Err(e) ==> e == MmapError::AllocationError,
            r matches Ok(m) ==> m.spec_byte_length() == byte_length && m.spec_options() == options@,
    {
        if byte_length == 0 || byte_length > isize::MAX as usize {
            return Err(MmapError::AllocationError);
        }
        match map_memory(byte_length, options) {
            Ok(map) => Ok(RawMapping { map, byte_length, options: vstd::slice::slice_to_vec(options) }),
            Err(_) => Err(MmapError::AllocationError),
        }
    }

    /// The number of bytes the mapping was asked for.
    pub fn byte_length(&self) -> (r: usize)
        ensures
            r == self.spec_byte_length(),
    {
        self.byte_length
    }

    /// The options the mapping was created with.
    pub fn options(&self) -> (r: &[MapOption])
        ensures
            r@ == self.spec_options(),
    {
        self.options.as_slice()
    }

    /// The system mapping itself, for laying records over its bytes.
    pub fn memory_map(&self) -> &mmap::MemoryMap {
        &self.map
    }
}

} // verus!
