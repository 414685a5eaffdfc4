//! What an array datum converts to: an array, the arguments of a variadic function, or a
//! vector of elements.

use crate::array::{made_array, makes_array, Array, ArrayView};
use crate::datum::{Datum, FromDatum};
use crate::layout::Layout;
use crate::raw::{Deconstructed, RawArray};
use crate::variadic::VariadicArray;
use vstd::prelude::*;

verus! {

/// What the datum of an array refers to.
pub struct ArrayReferent<'a, T: FromDatum<'a>> {
    /// The array as the server detoasted it: the one that the datum is the address of, or a
    /// copy.
    pub raw: RawArray<'a, T>,
    /// How the server lays out the elements.
    pub elem_layout: Layout,
    /// What the server made of the array, where it had to take it apart.
    pub parts: Option<Deconstructed<'a, T::Referent>>,
}

/// Whether the datum of an array stands for one: it is no NULL and no null address.
pub open spec fn stands<'a, R>(datum: Datum<'a, R>, is_null: bool) -> bool {
    !is_null && datum.word != 0
}

/// Whether the datum of an array stands for one, so that the array at `word` has to be
/// detoasted and looked at before the datum is converted.
pub fn stands_for_array(word: usize, is_null: bool) -> (array: bool)
    ensures
        array == (!is_null && word != 0),
{
    !is_null && word != 0
}

/// Whether the datum of an array is the address of one that can be made.
pub open spec fn refers<'a, T: FromDatum<'a>>(datum: Datum<'a, ArrayReferent<'a, T>>) -> bool {
    datum.referent matches Some(at) && at.raw.ptr != 0 && makes_array(
        at.raw,
        at.elem_layout,
        at.parts,
    )
}

/// The array that a datum is the address of.
pub open spec fn array_at<'a, T: FromDatum<'a>>(
    datum: Datum<'a, ArrayReferent<'a, T>>,
) -> ArrayView<'a, T> {
    let at = datum.referent.unwrap();
    made_array(datum.word, at.raw, at.elem_layout, at.parts)
}

impl<'a, T: FromDatum<'a>> FromDatum<'a> for Array<'a, T> {
    type Referent = ArrayReferent<'a, T>;

    /// An array never lies in a slot.
    fn read_slot(slot: &Self) -> (value: Option<Self>) {
        None
    }

    open spec fn accepts(
        datum: Datum<'a, ArrayReferent<'a, T>>,
        is_null: bool,
        typoid: u32,
    ) -> bool {
        stands(datum, is_null) ==> refers(datum)
    }

    open spec fn converts(
        datum: Datum<'a, ArrayReferent<'a, T>>,
        is_null: bool,
        typoid: u32,
        value: Option<Self>,
    ) -> bool {
        if stands(datum, is_null) {
            value matches Some(array) && array@ == array_at(datum)
        } else {
            value is None
        }
    }

    /// The array that `datum` is the address of; `None` for a NULL and for the null address.
    /// The array's own element type counts, not `typoid`.
    fn from_polymorphic_datum(
        datum: Datum<'a, ArrayReferent<'a, T>>,
        is_null: bool,
        typoid: u32,
    ) -> (value: Option<Self>) {
        if is_null {
            None
        } else if datum.is_null() {
            None
        } else {
            let at = datum.referent.unwrap();
            Some(Array::deconstruct_from(datum.word, at.raw, at.elem_layout, at.parts))
        }
    }
}

/// The allocations to free once the datum of an array has been converted to a vector, in
/// order: those of the array that the vector's elements were read from.
pub fn release_at<'a, T: FromDatum<'a>>(
    datum: Datum<'a, ArrayReferent<'a, T>>,
    is_null: bool,
    typoid: u32,
) -> (freed: Vec<usize>)
    requires
        stands(datum, is_null) ==> refers(datum),
    ensures
        freed@ == if stands(datum, is_null) {
            array_at(datum).owned()
        } else {
            seq![]
        },
{
    let array: Option<Array<'a, T>> = Array::from_polymorphic_datum(datum, is_null, typoid);
    match array {
        Some(array) => {
            let mut array = array;
            array.release()
        },
        None => Vec::new(),
    }
}

impl<'a, T: FromDatum<'a>> FromDatum<'a> for VariadicArray<'a, T> {
    type Referent = ArrayReferent<'a, T>;

    /// An array never lies in a slot.
    fn read_slot(slot: &Self) -> (value: Option<Self>) {
        None
    }

    open spec fn accepts(
        datum: Datum<'a, ArrayReferent<'a, T>>,
        is_null: bool,
        typoid: u32,
    ) -> bool {
        stands(datum, is_null) ==> refers(datum)
    }

    open spec fn converts(
        datum: Datum<'a, ArrayReferent<'a, T>>,
        is_null: bool,
        typoid: u32,
        value: Option<Self>,
    ) -> bool {
        if stands(datum, is_null) {
            value matches Some(array) && array@ == array_at(datum)
        } else {
            value is None
        }
    }

    /// The array that `datum` is the address of; `None` for a NULL and for the null address.
    fn from_polymorphic_datum(
        datum: Datum<'a, ArrayReferent<'a, T>>,
        is_null: bool,
        typoid: u32,
    ) -> (value: Option<Self>) {
        match Array::from_polymorphic_datum(datum, is_null, typoid) {
            Some(array) => Some(VariadicArray::new(array)),
            None => None,
        }
    }
}

/// Why an array datum does not convert to a vector of plain values.
#[derive(Clone, Copy, Debug, PartialEq, Eq)]
pub enum VectorError {
    /// The datum is no NULL but the null address.
    NoArray,
    /// The element at this position, the first such, has no value.
    NullElement(usize),
}

/// The values of the array that `datum` is the address of; `None` for a NULL. Each element is
/// converted once, up to the first that has no value.
pub fn vector_from_datum<'a, T: FromDatum<'a>>(
    datum: Datum<'a, ArrayReferent<'a, T>>,
    is_null: bool,
    typoid: u32,
) -> (outcome: Result<Option<Vec<T>>, VectorError>)
    requires
        stands(datum, is_null) ==> {
            &&& refers(datum)
            &&& forall|i: int|
                0 <= i < array_at(datum).nelems ==> #[trigger] array_at(datum).element_reads(i)
        },
    ensures
        match outcome {
            Ok(None) => is_null,
            Ok(Some(values)) => {
                &&& stands(datum, is_null)
                &&& values@.len() == array_at(datum).nelems
                &&& forall|i: int|
                    0 <= i < values@.len() ==> array_at(datum).gives(
                        i,
                        Some(Some(#[trigger] values@[i])),
                    )
            },
            Err(VectorError::NoArray) => !is_null && datum.word == 0,
            Err(VectorError::NullElement(at)) => {
                &&& stands(datum, is_null)
                &&& at < array_at(datum).nelems
                &&& array_at(datum).gives(at as int, Some(None))
                &&& forall|i: int|
                    0 <= i < at ==> #[trigger] array_at(datum).may_give_value(i)
            },
        },
{
    if is_null {
        return Ok(None);
    }
    let array: Array<'a, T> = match Array::from_polymorphic_datum(datum, is_null, typoid) {
        Some(array) => array,
        None => return Err(VectorError::NoArray),
    };
    let mut v: Vec<T> = Vec::with_capacity(array.len());
    let mut iter = array.iter();
    loop
        invariant
            iter@.array == array@,
            array@ == array_at(datum),
            stands(datum, is_null),
            iter@.curr == v@.len(),
            v@.len() <= array@.nelems,
            forall|i: int| 0 <= i < array@.nelems ==> #[trigger] array@.element_reads(i),
            forall|i: int| 0 <= i < v@.len() ==> array@.gives(i, Some(Some(#[trigger] v@[i]))),
        ensures
            v@.len() == array@.nelems,
        decreases array@.nelems - v@.len(),
    {
        proof {
            if v@.len() < array@.nelems {
                assert(array@.element_reads(v@.len() as int));
            }
        }
        match iter.next() {
            Some(Some(element)) => v.push(element),
            Some(None) => {
                assert forall|i: int| 0 <= i < v@.len() implies #[trigger] array@.may_give_value(
                    i,
                ) by {
                    assert(array@.gives(i, Some(Some(v@[i]))));
                }
                return Err(VectorError::NullElement(v.len()));
            },
            None => break,
        }
    }
    Ok(Some(v))
}

impl<'a, T: FromDatum<'a>> FromDatum<'a> for Vec<T> {
    type Referent = ArrayReferent<'a, T>;

    /// A vector never lies in a slot.
    fn read_slot(slot: &Self) -> (value: Option<Self>) {
        None
    }

    open spec fn accepts(
        datum: Datum<'a, ArrayReferent<'a, T>>,
        is_null: bool,
        typoid: u32,
    ) -> bool {
        is_null || {
            &&& datum.word != 0
            &&& refers(datum)
            &&& forall|i: int|
                0 <= i < array_at(datum).nelems ==> #[trigger] array_at(datum).element_has_value(i)
        }
    }

    open spec fn converts(
        datum: Datum<'a, ArrayReferent<'a, T>>,
        is_null: bool,
        typoid: u32,
        value: Option<Self>,
    ) -> bool {
        if is_null {
            value is None
        } else {
            value matches Some(values) && {
                &&& values@.len() == array_at(datum).nelems
                &&& forall|i: int|
                    0 <= i < values@.len() ==> array_at(datum).gives(
                        i,
                        Some(Some(#[trigger] values@[i])),
                    )
            }
        }
    }

    /// The values of the array that `datum` is the address of, none of which may be NULL;
    /// `None` for a NULL.
    fn from_polymorphic_datum(
        datum: Datum<'a, ArrayReferent<'a, T>>,
        is_null: bool,
        typoid: u32,
    ) -> (value: Option<Self>) {
        proof {
            if !is_null {
                assert forall|i: int| 0 <= i < array_at(
                    datum,
                ).nelems implies #[trigger] array_at(datum).element_reads(i) by {
                    assert(array_at(datum).element_has_value(i));
                }
            }
        }
        match vector_from_datum(datum, is_null, typoid) {
            Ok(values) => values,
            Err(error) => {
                proof {
                    if let VectorError::NullElement(at) = error {
                        assert(array_at(datum).element_has_value(at as int));
                    }
                }
                None
            },
        }
    }
}

impl<'a, T: FromDatum<'a>> FromDatum<'a> for Vec<Option<T>> {
    type Referent = ArrayReferent<'a, T>;

    /// A vector never lies in a slot.
    fn read_slot(slot: &Self) -> (value: Option<Self>) {
        None
    }

    open spec fn accepts(
        datum: Datum<'a, ArrayReferent<'a, T>>,
        is_null: bool,
        typoid: u32,
    ) -> bool {
        stands(datum, is_null) ==> {
            &&& refers(datum)
            &&& forall|i: int|
                0 <= i < array_at(datum).nelems ==> #[trigger] array_at(datum).element_reads(i)
        }
    }

    open spec fn converts(
        datum: Datum<'a, ArrayReferent<'a, T>>,
        is_null: bool,
        typoid: u32,
        value: Option<Self>,
    ) -> bool {
        if stands(datum, is_null) {
            value matches Some(values) && {
                &&& values@.len() == array_at(datum).nelems
                &&& forall|i: int|
                    0 <= i < values@.len() ==> array_at(datum).gives(
                        i,
                        Some(#[trigger] values@[i]),
                    )
            }
        } else {
            value is None
        }
    }

    /// The elements of the array that `datum` is the address of; `None` for a NULL and for the
    /// null address.
    fn from_polymorphic_datum(
        datum: Datum<'a, ArrayReferent<'a, T>>,
        is_null: bool,
        typoid: u32,
    ) -> (value: Option<Self>) {
        if is_null || datum.is_null() {
            None
        } else {
            let array: Array<'a, T> = Array::from_polymorphic_datum(
                datum,
                is_null,
                typoid,
            ).unwrap();
            let mut v: Vec<Option<T>> = Vec::with_capacity(array.len());
            let mut iter = array.iter();
            loop
                invariant
                    iter@.array == array@,
                    iter@.curr == v@.len(),
                    v@.len() <= array@.nelems,
                    forall|i: int| 0 <= i < array@.nelems ==> #[trigger] array@.element_reads(i),
                    forall|i: int| 0 <= i < v@.len() ==> array@.gives(i, Some(#[trigger] v@[i])),
                ensures
                    v@.len() == array@.nelems,
                decreases array@.nelems - v@.len(),
            {
                proof {
                    if v@.len() < array@.nelems {
                        assert(array@.element_reads(v@.len() as int));
                    }
                }
                match iter.next() {
                    Some(element) => v.push(element),
                    None => break,
                }
            }
            Some(v)
        }
    }
}

} // verus!
