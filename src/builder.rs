use vstd::prelude::*;

use std::marker::PhantomData;

use crate::error::MmapError;
use crate::options::MapOption;
use crate::region::RawMapping;

verus! {

/// The options a mapping is created with: those configured, then, when a
/// file backs it, that file's descriptor and a request for a shared mapping.
pub open spec fn mapping_options(options: Seq<MapOption>, file: Option<i32>) -> Seq<MapOption> {
    match file {
        Some(fd) => options + seq![MapOption::MapFd(fd), MapOption::MapShared],
        None => options,
    }
}

/// The number of bytes that `capacity` records of type `T` take.
pub open spec fn byte_length_of<T>(capacity: nat) -> nat {
    capacity * vstd::layout::size_of::<T>()
}

/// A mapping sized for a fixed number of records of type `T`.
///
/// When the records take no bytes at all no system mapping is made, and
/// the region is absent.
pub struct TypedMapping<T> {
    region: Option<RawMapping>,
    capacity: usize,
    _type: PhantomData<T>,
}

impl<T> TypedMapping<T> {
    /// How many records the mapping holds.
    pub closed spec fn spec_len(&self) -> nat {
        self.capacity as nat
    }

    /// The system mapping behind the records, if any.
    pub closed spec fn spec_region(&self) -> Option<RawMapping> {
        self.region
    }

    /// How many records the mapping holds.
    pub fn len(&self) -> (r: usize)
        ensures
            r == self.spec_len(),
    {
        self.capacity
    }

    /// The system mapping behind the records; absent when they take no bytes.
    pub fn region(&self) -> (r: Option<&RawMapping>)
        ensures
            r == match self.spec_region() {
                Some(m) => Some(&m),
                None => None::<&RawMapping>,
            },
    {
        match &self.region {
            Some(m) => Some(m),
            None => None,
        }
    }
}

/// Gathers the capacity, options and backing file of a mapping, then makes it.
pub struct EasyMmapBuilder<T> {
    file: Option<i32>,
    capacity: usize,
    options: Vec<MapOption>,
    _type: PhantomData<T>,
}

impl<T> EasyMmapBuilder<T> {
    /// The descriptor of the backing file, if one was given.
    pub closed spec fn spec_file(&self) -> Option<i32> {
        self.file
    }

    /// The number of records asked for.
    pub closed spec fn spec_capacity(&self) -> nat {
        self.capacity as nat
    }

    /// The options configured so far, in the order given.
    pub closed spec fn spec_options(&self) -> Seq<MapOption> {
        self.options@
    }

    /// A builder with no file, no records and no options.
    pub fn new() -> (r: Self)
        ensures
            r.spec_file() == None::<i32>,
            r.spec_capacity() == 0,
            r.spec_options() == Seq::<MapOption>::empty(),
    {
        EasyMmapBuilder { file: None, capacity: 0, options: Vec::new(), _type: PhantomData }
    }

    /// Backs the mapping with the file of descriptor `fd`, whose owner keeps
    /// it open for as long as the mapping lives.
    pub fn file(self, fd: i32) -> (r: Self)
        ensures
            r.spec_file() == Some(fd),
            r.spec_capacity() == self.spec_capacity(),
            r.spec_options() == self.spec_options(),
    {
        EasyMmapBuilder { file: Some(fd), ..self }
    }

    /// Sets the number of records; the last call wins.
    pub fn capacity(self, capacity: usize) -> (r: Self)
        ensures
            r.spec_file() == self.spec_file(),
            r.spec_capacity() == capacity,
            r.spec_options() == self.spec_options(),
    {
        EasyMmapBuilder { capacity, ..self }
    }

    /// Replaces the options with `options`.
    pub fn options(self, options: &[MapOption]) -> (r: Self)
        ensures
            r.spec_file() == self.spec_file(),
            r.spec_capacity() == self.spec_capacity(),
            r.spec_options() == options@,
    {
        EasyMmapBuilder { options: vstd::slice::slice_to_vec(options), ..self }
    }

    /// Appends `option` to the options.
    pub fn add_option(self, option: MapOption) -> (r: Self)
        ensures
            r.spec_file() == self.spec_file(),
            r.spec_capacity() == self.spec_capacity(),
            r.spec_options() == self.spec_options().push(option),
    {
        let mut b = self;
        b.options.push(option);
        b
    }

    /// Asks for records that can be read.
    pub fn readable(self) -> (r: Self)
        ensures
            r.spec_file() == self.spec_file(),
            r.spec_capacity() == self.spec_capacity(),
            r.spec_options() == self.spec_options().push(MapOption::MapReadable),
    {
        self.add_option(MapOption::MapReadable)
    }

    /// Asks for records that can be written.
    pub fn writable(self) -> (r: Self)
        ensures
            r.spec_file() == self.spec_file(),
            r.spec_capacity() == self.spec_capacity(),
            r.spec_options() == self.spec_options().push(MapOption::MapWritable),
    {
        self.add_option(MapOption::MapWritable)
    }

    /// The number of bytes the records take, if it fits in a `usize`.
    pub fn byte_length(&self) -> (r: Option<usize>)
        ensures
            byte_length_of::<T>(self.spec_capacity()) <= usize::MAX ==> r == Some(
                byte_length_of::<T>(self.spec_capacity()) as usize,
            ),
            byte_length_of::<T>(self.spec_capacity()) > usize::MAX ==> r == None::<usize>,
    {
        let size = core::mem::size_of::<T>();
        self.capacity.checked_mul(size)
    }

    /// The length the backing file must be given before the mapping is made:
    /// present only when a file was given and the length fits.
    pub fn file_length(&self) -> (r: Option<u64>)
        ensures
            r == (if self.spec_file() is Some && byte_length_of::<T>(self.spec_capacity()) <= usize::MAX {
                Some(byte_length_of::<T>(self.spec_capacity()) as u64)
            } else {
                None::<u64>
            }),
    {
        match (&self.file, self.byte_length()) {
            (Some(_), Some(n)) => Some(n as u64),
            _ => None,
        }
    }

    /// The options the mapping will be created with.
    pub fn mapping_options(&self) -> (r: Vec<MapOption>)
        ensures
            r@ == mapping_options(self.spec_options(), self.spec_file()),
    {
        let mut opts = vstd::slice::slice_to_vec(self.options.as_slice());
        match self.file {
            Some(fd) => {
                opts.push(MapOption::MapFd(fd));
                opts.push(MapOption::MapShared);
            },
            None => {},
        }
        opts
    }

    /// Makes the mapping: `capacity` records of `T`, created with the
    /// configured options and, when a file was given, shared through it.
    /// Records that take no bytes need no system mapping and always succeed.
    pub fn build(self) -> (r: Result<TypedMapping<T>, MmapError>)
        ensures
            ({
                let n = byte_length_of::<T>(self.spec_capacity());
                &&& n > isize::MAX ==> r == Err::<TypedMapping<T>, MmapError>(
                    MmapError::AllocationError,
                )
                &&& n == 0 ==> (r matches Ok(m) && m.spec_region() is None)
                &&& r matches Err(e) ==> e == MmapError::AllocationError
                &&& r matches Ok(m) ==> {
                    &&& m.spec_len() == self.spec_capacity()
                    &&& n > 0 ==> (m.spec_region() matches Some(g) && g.spec_byte_length() == n
                        && g.spec_options() == mapping_options(self.spec_options(), self.spec_file()))
                }
            }),
    {
        let n = match self.byte_length() {
            Some(n) => n,
            None => { return Err(MmapError::AllocationError); },
        };
        if n == 0 {
            return Ok(TypedMapping { region: None, capacity: self.capacity, _type: PhantomData });
        }
        let opts = self.mapping_options();
        match RawMapping::create(n, opts.as_slice()) {
            Ok(m) => Ok(TypedMapping { region: Some(m), capacity: self.capacity, _type: PhantomData }),
            Err(e) => Err(e),
        }
    }
}

} // verus!
