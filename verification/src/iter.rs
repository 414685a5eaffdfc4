//! Walks over an array.

use crate::array::{Array, ArrayView};
use crate::datum::FromDatum;
use vstd::prelude::*;

verus! {

/// A walk over an array, as contracts speak of it.
pub struct WalkView<'a, T: FromDatum<'a>> {
    /// The array.
    pub array: ArrayView<'a, T>,
    /// The position of the next element.
    pub curr: nat,
}

impl<'a, T: FromDatum<'a>> WalkView<'a, T> {
    /// Whether the walk has come to the array's end.
    pub open spec fn done(self) -> bool {
        self.curr >= self.array.nelems
    }

    /// Whether the next step finds what it reads: the array knows of the element and can find
    /// it. At the array's end there is nothing to find.
    pub open spec fn finds(self) -> bool {
        !self.done() ==> self.array.nulls.null_at(self.curr as int) is Some && self.array.locates(
            self.curr as int,
        )
    }

    /// The walk after the next step: one element on, or where it is at the array's end.
    pub open spec fn stepped(self) -> WalkView<'a, T> {
        WalkView {
            curr: if self.done() {
                self.curr
            } else {
                self.curr + 1
            },
            ..self
        }
    }

    /// The walk after `steps` steps.
    pub open spec fn after(self, steps: nat) -> WalkView<'a, T>
        decreases steps,
    {
        if steps == 0 {
            self
        } else {
            self.after((steps - 1) as nat).stepped()
        }
    }

    /// Whether the next step may give `item`: nothing at the array's end, else the element
    /// that is read at the walk's position.
    pub open spec fn steps_to(self, item: Option<Option<T>>) -> bool {
        if self.done() {
            item is None
        } else {
            item is Some && self.array.gives(self.curr as int, item)
        }
    }
}

/// A walk over the elements of an array, NULLs among them.
pub struct ArrayIterator<'b, 'a, T: FromDatum<'a>> {
    array: &'b Array<'a, T>,
    curr: usize,
}

impl<'b, 'a, T: FromDatum<'a>> View for ArrayIterator<'b, 'a, T> {
    type V = WalkView<'a, T>;

    closed spec fn view(&self) -> WalkView<'a, T> {
        WalkView { array: self.array@, curr: self.curr as nat }
    }
}

impl<'b, 'a, T: FromDatum<'a>> ArrayIterator<'b, 'a, T> {
    pub(crate) fn new(array: &'b Array<'a, T>) -> (iter: Self)
        ensures
            iter@.array == array@,
            iter@.curr == 0,
    {
        ArrayIterator { array, curr: 0 }
    }

    /// Whether the next step finds what it reads.
    pub fn ready(&self) -> (ready: bool)
        ensures
            ready == self@.finds(),
    {
        self.curr >= self.array.len() || self.array.holds(self.curr)
    }

    /// The next element, or `None` at the array's end.
    pub fn next(&mut self) -> (item: Option<Option<T>>)
        requires
            !old(self)@.done() ==> old(self)@.array.element_reads(old(self)@.curr as int),
        ensures
            old(self)@.steps_to(item),
            final(self)@ == old(self)@.stepped(),
    {
        if self.curr >= self.array.len() {
            None
        } else {
            let element = self.array.get(self.curr).unwrap();
            self.curr += 1;
            Some(element)
        }
    }
}

/// What a step of a walk over values comes to.
#[derive(Debug, PartialEq, Eq)]
pub enum TypedStep<T> {
    /// The next value.
    Value(T),
    /// The array's end.
    End,
    /// An element that has no value after all; the walk stays before it.
    UnexpectedNull,
}

/// A walk over the values of an array that holds no NULL.
pub struct ArrayTypedIterator<'b, 'a, T: FromDatum<'a>> {
    array: &'b Array<'a, T>,
    curr: usize,
}

impl<'b, 'a, T: FromDatum<'a>> View for ArrayTypedIterator<'b, 'a, T> {
    type V = WalkView<'a, T>;

    closed spec fn view(&self) -> WalkView<'a, T> {
        WalkView { array: self.array@, curr: self.curr as nat }
    }
}

impl<'b, 'a, T: FromDatum<'a>> ArrayTypedIterator<'b, 'a, T> {
    pub(crate) fn new(array: &'b Array<'a, T>) -> (iter: Self)
        ensures
            iter@.array == array@,
            iter@.curr == 0,
    {
        ArrayTypedIterator { array, curr: 0 }
    }

    /// Whether the next step finds what it reads.
    pub fn ready(&self) -> (ready: bool)
        ensures
            ready == self@.finds(),
    {
        self.curr >= self.array.len() || self.array.holds(self.curr)
    }

    /// The next value, or `None` at the array's end.
    pub fn next(&mut self) -> (item: Option<T>)
        requires
            !old(self)@.done() ==> old(self)@.array.element_has_value(old(self)@.curr as int),
        ensures
            old(self)@.steps_to(
                match item {
                    Some(value) => Some(Some(value)),
                    None => None,
                },
            ),
            final(self)@ == old(self)@.stepped(),
    {
        if self.curr >= self.array.len() {
            None
        } else {
            let element = self.array.get(self.curr).unwrap().unwrap();
            self.curr += 1;
            Some(element)
        }
    }

    /// The next step, which converts the element once and tells an element without a value
    /// from the array's end.
    pub fn step(&mut self) -> (step: TypedStep<T>)
        requires
            !old(self)@.done() ==> old(self)@.array.element_reads(old(self)@.curr as int),
        ensures
            match step {
                TypedStep::Value(value) => {
                    &&& !old(self)@.done()
                    &&& old(self)@.steps_to(Some(Some(value)))
                    &&& final(self)@ == old(self)@.stepped()
                },
                TypedStep::End => old(self)@.done() && final(self)@ == old(self)@,
                TypedStep::UnexpectedNull => {
                    &&& !old(self)@.done()
                    &&& old(self)@.steps_to(Some(None))
                    &&& final(self)@ == old(self)@
                },
            },
    {
        if self.curr >= self.array.len() {
            TypedStep::End
        } else {
            match self.array.get(self.curr).unwrap() {
                Some(element) => {
                    self.curr += 1;
                    TypedStep::Value(element)
                },
                None => TypedStep::UnexpectedNull,
            }
        }
    }

    /// A walk over all elements of the array, wherever this one stands.
    pub fn elements(&self) -> (iter: ArrayIterator<'b, 'a, T>)
        ensures
            iter@.array == self@.array,
            iter@.curr == 0,
    {
        self.array.iter()
    }
}

/// A walk over the elements of an array that it owns.
pub struct ArrayIntoIterator<'a, T: FromDatum<'a>> {
    array: Array<'a, T>,
    curr: usize,
}

impl<'a, T: FromDatum<'a>> View for ArrayIntoIterator<'a, T> {
    type V = WalkView<'a, T>;

    closed spec fn view(&self) -> WalkView<'a, T> {
        WalkView { array: self.array@, curr: self.curr as nat }
    }
}

impl<'a, T: FromDatum<'a>> ArrayIntoIterator<'a, T> {
    pub(crate) fn new(array: Array<'a, T>) -> (iter: Self)
        ensures
            iter@.array == array@,
            iter@.curr == 0,
    {
        ArrayIntoIterator { array, curr: 0 }
    }

    /// Whether the next step finds what it reads.
    pub fn ready(&self) -> (ready: bool)
        ensures
            ready == self@.finds(),
    {
        self.curr >= self.array.len() || self.array.holds(self.curr)
    }

    /// The next element, or `None` at the array's end.
    pub fn next(&mut self) -> (item: Option<Option<T>>)
        requires
            !old(self)@.done() ==> old(self)@.array.element_reads(old(self)@.curr as int),
        ensures
            old(self)@.steps_to(item),
            final(self)@ == old(self)@.stepped(),
    {
        if self.curr >= self.array.len() {
            None
        } else {
            let element = self.array.get(self.curr).unwrap();
            self.curr += 1;
            Some(element)
        }
    }

    /// Bounds on the number of elements to come: none at least, the whole array at most.
    pub fn size_hint(&self) -> (hint: (usize, Option<usize>))
        ensures
            hint.0 == 0,
            hint.1 matches Some(upper) && upper == self@.array.nelems,
    {
        (0, Some(self.array.len()))
    }

    /// The number of elements of the array, those that the walk has passed among them.
    pub fn count(self) -> (count: usize)
        ensures
            count == self@.array.nelems,
    {
        self.array.len()
    }

    /// Whether what stands at position `n` of the array can be found.
    pub fn has(&self, n: usize) -> (found: bool)
        ensures
            found == self@.array.locates(n as int),
    {
        self.array.has(n)
    }

    /// Element `n` of the array, counted from its start; the walk stays where it is.
    pub fn nth(&mut self, n: usize) -> (item: Option<Option<T>>)
        requires
            old(self)@.array.reads(n as int),
        ensures
            old(self)@.array.gives(n as int, item),
            final(self)@ == old(self)@,
    {
        self.array.get(n)
    }

    /// The allocations to free as the walk and its array end, in order.
    pub fn release(&mut self) -> (freed: Vec<usize>)
        ensures
            freed@ == old(self)@.array.owned(),
            final(self)@ == (WalkView {
                array: old(self)@.array.released(),
                ..old(self)@
            }),
    {
        self.array.release()
    }
}

} // verus!
