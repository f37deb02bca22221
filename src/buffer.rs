use vstd::prelude::*;
use vstd::std_specs::iter::IteratorSpec;

use crate::error::MmapError;
use crate::parallel::{par_collect, par_replace};

verus! {

#[verifier::external_type_specification]
#[verifier::external_body]
#[verifier::reject_recursive_types(T)]
pub struct ExIterMut<'a, T: 'a>(std::slice::IterMut<'a, T>);

/// What reading record `index` of `records` gives.
pub open spec fn get_result<T>(records: Seq<T>, index: usize) -> Result<T, MmapError> {
    if index < records.len() {
        Ok(records[index as int])
    } else {
        Err(MmapError::IndexOutOfRange { index, len: records.len() as usize })
    }
}

/// What writing `value` at `index` of `records` gives, and the records after.
pub open spec fn put_result<T>(records: Seq<T>, index: usize, value: T) -> (Result<(), MmapError>, Seq<T>) {
    if index < records.len() {
        (Ok(()), records.update(index as int, value))
    } else {
        (Err(MmapError::IndexOutOfRange { index, len: records.len() as usize }), records)
    }
}

/// A typed, bounds-checked view over a region of fixed-layout records.
///
/// The view has sole mutable access to the records for its lifetime; how
/// many records there are never changes, only their contents do.
pub struct EasyMmap<'a, T> {
    data: &'a mut [T],
}

impl<'a, T> View for EasyMmap<'a, T> {
    type V = Seq<T>;

    /// The records, in index order.
    closed spec fn view(&self) -> Seq<T> {
        self.data@
    }
}

impl<'a, T: Copy> EasyMmap<'a, T> {
    /// Lays the view over the records of `data`.
    pub fn over(data: &'a mut [T]) -> (r: Self)
        ensures
            r@ == old(data)@,
    {
        EasyMmap { data }
    }

    /// How many records the region holds.
    pub fn len(&self) -> (r: usize)
        ensures
            r == self@.len(),
    {
        self.data.len()
    }

    /// A copy of the record at `index`.
    pub fn get(&self, index: usize) -> (r: Result<T, MmapError>)
        ensures
            r == get_result(self@, index),
    {
        if index < self.data.len() {
            Ok(self.data[index])
        } else {
            Err(MmapError::IndexOutOfRange { index, len: self.data.len() })
        }
    }

    /// Overwrites the record at `index` with `value`; past the end nothing
    /// changes.
    pub fn put(&mut self, index: usize, value: T) -> (r: Result<(), MmapError>)
        ensures
            (r, final(self)@) == put_result(old(self)@, index, value),
    {
        let len = self.data.len();
        if index < len {
            self.data[index] = value;
            Ok(())
        } else {
            Err(MmapError::IndexOutOfRange { index, len })
        }
    }

    /// All records as one contiguous slice.
    pub fn get_data_as_slice(&self) -> (r: &[T])
        ensures
            r@ == self@,
    {
        self.data
    }

    /// All records as one contiguous mutable slice; what is written through
    /// it is what the view holds afterwards.
    pub fn get_data_as_slice_mut(&mut self) -> (r: &mut [T])
        ensures
            r@ == old(self)@,
            final(self)@ == final(r)@,
    {
        &mut *self.data
    }

    /// The records in increasing index order.
    pub fn iter(&self) -> (r: std::slice::Iter<'_, T>)
        ensures
            r.remaining() == self@.as_ref(),
    {
        self.data.iter()
    }

    /// The records in increasing index order, each to be changed in place.
    /// Relies on `<[T]>::iter_mut`: the iterator changes records, never
    /// how many there are.
    #[verifier::external_body]
    pub fn iter_mut(&mut self) -> (r: std::slice::IterMut<'_, T>)
        ensures
            final(self)@.len() == old(self)@.len(),
    {
        self.data.iter_mut()
    }

    /// Sets record `i` to `f(i)` for each index, in increasing order.
    pub fn fill<F: Fn(usize) -> T>(&mut self, f: F)
        requires
            forall|i: usize| i < old(self)@.len() ==> f.requires((i,)),
        ensures
            final(self)@.len() == old(self)@.len(),
            forall|i: int| 0 <= i < final(self)@.len() ==> f.ensures((i as usize,), final(self)@[i]),
    {
        let len = self.data.len();
        let mut i: usize = 0;
        while i < len
            invariant
                len == old(self)@.len(),
                self@.len() == len,
                0 <= i <= len,
                forall|k: usize| k < len ==> f.requires((k,)),
                forall|k: int| 0 <= k < i ==> f.ensures((k as usize,), self@[k]),
            decreases len - i,
        {
            let v = f(i);
            self.data[i] = v;
            i = i + 1;
        }
    }

    /// Replaces each record `v` at index `i` by `f(i, v)`, in increasing
    /// index order.
    pub fn update_each<F: Fn(usize, T) -> T>(&mut self, f: F)
        requires
            forall|i: int| 0 <= i < old(self)@.len() ==> f.requires((i as usize, old(self)@[i])),
        ensures
            final(self)@.len() == old(self)@.len(),
            forall|i: int|
                0 <= i < final(self)@.len() ==> f.ensures((i as usize, old(self)@[i]), final(self)@[i]),
    {
        let len = self.data.len();
        let mut i: usize = 0;
        while i < len
            invariant
                len == old(self)@.len(),
                self@.len() == len,
                0 <= i <= len,
                forall|k: int| i <= k < len ==> self@[k] == old(self)@[k],
                forall|k: int| 0 <= k < len ==> f.requires((k as usize, old(self)@[k])),
                forall|k: int| 0 <= k < i ==> f.ensures((k as usize, old(self)@[k]), self@[k]),
            decreases len - i,
        {
            let v = f(i, self.data[i]);
            self.data[i] = v;
            i = i + 1;
        }
    }
    /// Applies `f` to every record, spread over a pool of workers; the
    /// results come back in index order.
    pub fn par_iter<U: Send, F: Fn(T) -> U + Send + Sync>(&self, f: F) -> (r: Vec<U>)
        where T: Send + Sync,
        requires
            forall|i: int| 0 <= i < self@.len() ==> f.requires((self@[i],)),
        ensures
            r@.len() == self@.len(),
            forall|i: int| 0 <= i < r@.len() ==> f.ensures((self@[i],), r@[i]),
    {
        assert(self.data@ == self@);
        par_collect(self.data, f)
    }

    /// Replaces every record `v` by `f(v)`, spread over a pool of workers;
    /// each record is handled by exactly one of them.
    pub fn par_iter_mut<F: Fn(T) -> T + Send + Sync>(&mut self, f: F)
        where T: Send + Sync,
        requires
            forall|i: int| 0 <= i < old(self)@.len() ==> f.requires((old(self)@[i],)),
        ensures
            final(self)@.len() == old(self)@.len(),
            forall|i: int| 0 <= i < final(self)@.len() ==> f.ensures((old(self)@[i],), final(self)@[i]),
    {
        assert(self.data@ == old(self)@);
        par_replace(&mut *self.data, f);
    }
}

} // verus!
