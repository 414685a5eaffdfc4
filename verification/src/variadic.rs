//! The array that a variadic function receives its arguments in.

use crate::array::{Array, ArrayView};
use crate::datum::FromDatum;
use crate::iter::{ArrayIntoIterator, ArrayIterator, ArrayTypedIterator};
use vstd::prelude::*;

verus! {

/// The arguments of a variadic function: an array in all but name.
pub struct VariadicArray<'a, T: FromDatum<'a>>(Array<'a, T>);

impl<'a, T: FromDatum<'a>> View for VariadicArray<'a, T> {
    type V = ArrayView<'a, T>;

    closed spec fn view(&self) -> ArrayView<'a, T> {
        self.0@
    }
}

impl<'a, T: FromDatum<'a>> VariadicArray<'a, T> {
    pub(crate) fn new(array: Array<'a, T>) -> (variadic: Self)
        ensures
            variadic@ == array@,
    {
        VariadicArray(array)
    }

    /// The array that it is.
    pub fn as_array(&self) -> (array: &Array<'a, T>)
        ensures
            array@ == self@,
    {
        &self.0
    }

    /// Gives up the array for the address of the raw array, zero where it has none. Nothing is
    /// freed.
    pub fn into_array_type(self) -> (ptr: usize)
        ensures
            ptr == match self@.raw {
                Some(raw) => raw.ptr,
                None => 0,
            },
    {
        self.0.into_array_type()
    }

    /// The allocations to free as the array ends, in order.
    pub fn release(&mut self) -> (freed: Vec<usize>)
        ensures
            freed@ == old(self)@.owned(),
            final(self)@ == old(self)@.released(),
    {
        self.0.release()
    }

    /// The elements as a slice: the first slots of the raw array's data area, as many as it
    /// has elements.
    pub fn as_slice(&self) -> (slice: &[T])
        requires
            self@.slice_denial() is None,
            self@.raw.unwrap().len <= self@.raw.unwrap().data@.len(),
        ensures
            slice@ == self@.slice(),
    {
        self.0.as_slice()
    }

    /// A walk over the elements, NULLs among them.
    pub fn iter(&self) -> (iter: ArrayIterator<'_, 'a, T>)
        ensures
            iter@.array == self@,
            iter@.curr == 0,
    {
        self.0.iter()
    }

    /// A walk over the values of an array that holds no NULL.
    pub fn iter_deny_null(&self) -> (iter: ArrayTypedIterator<'_, 'a, T>)
        requires
            self@.walk_denial() is None,
        ensures
            iter@.array == self@,
            iter@.curr == 0,
    {
        self.0.iter_deny_null()
    }

    /// The number of elements.
    pub fn len(&self) -> (len: usize)
        ensures
            len == self@.nelems,
    {
        self.0.len()
    }

    /// Whether there are no elements.
    pub fn is_empty(&self) -> (empty: bool)
        ensures
            empty == (self@.nelems == 0),
    {
        self.0.is_empty()
    }

    /// Element `i`: `None` where the array knows of no such element, `Some(None)` where it is
    /// NULL. As with any array, elements that the server passes by value can be read too.
    pub fn get(&self, i: usize) -> (value: Option<Option<T>>)
        requires
            self@.reads(i as int),
        ensures
            self@.gives(i as int, value),
    {
        self.0.get(i)
    }

    /// Gives up the array for a walk over its elements.
    pub fn into_iter(self) -> (iter: ArrayIntoIterator<'a, T>)
        ensures
            iter@.array == self@,
            iter@.curr == 0,
    {
        self.0.into_iter()
    }
}

} // verus!
