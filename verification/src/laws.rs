//! What holds of arrays across their operations.

use crate::array::{made_array, makes_array, Array, ArrayView, SliceDenial, WalkDenial};
use crate::builder::{becomes, element_of, BuilderView, Element};
use crate::convert::{array_at, refers, stands, ArrayReferent};
use crate::datum::{Datum, FromDatum, IntoDatum};
use crate::iter::WalkView;
use crate::layout::Layout;
use crate::nulls::{present_position_has_a_slot, slots_are_positions_without_nulls};
use crate::raw::{Deconstructed, RawArray};
use crate::sql::{
    array_argument, array_return, ArgumentError, Returns, ReturnsError, SqlMapping,
    SqlTranslatable,
};
use crate::variadic::VariadicArray;
use vstd::prelude::*;

verus! {

/// A well-formed array knows of each of its elements whether it is NULL, and finds every one
/// of them as long as it has a slot for each that is not NULL. Past its end it knows nothing;
/// at its end an array without a bitmap still takes the position for a present element, which
/// it then cannot find among its datums.
pub proof fn well_formed_array_knows_its_elements<'a, T: FromDatum<'a>>(array: ArrayView<'a, T>)
    requires
        array.well_formed(),
    ensures
        forall|i: int| 0 <= i < array.nelems ==> #[trigger] array.nulls.null_at(i) is Some,
        forall|i: int| i > array.nelems ==> #[trigger] array.nulls.null_at(i) is None,
        array.nulls.null_at(array.nelems as int) == if array.raw.unwrap().nulls is None {
            Some(false)
        } else {
            None
        },
        array.has_all_slots() ==> forall|i: int|
            0 <= i < array.nelems ==> #[trigger] array.locates(i),
        array.datums is Some && array.raw.unwrap().nulls is None ==> !array.locates(
            array.nelems as int,
        ),
{
    if array.has_all_slots() {
        assert forall|i: int| 0 <= i < array.nelems implies #[trigger] array.locates(i) by {
            if array.nulls.null_at(i) == Some(false) {
                present_position_has_a_slot(array.nulls, i, array.nelems as int);
            }
        }
    }
}

/// Every element of a well-formed array can be read, as long as the array has a slot for each
/// that is not NULL or `T` converts all of its datums.
pub proof fn well_formed_array_reads_its_elements<'a, T: FromDatum<'a>>(array: ArrayView<'a, T>)
    requires
        array.well_formed(),
        array.has_all_slots(),
        array.converts_all(),
    ensures
        forall|i: int| 0 <= i < array.nelems ==> #[trigger] array.element_reads(i),
{
    well_formed_array_knows_its_elements(array);
    assert forall|i: int| 0 <= i < array.nelems implies #[trigger] array.element_reads(i) by {
        assert(array.nulls.null_at(i) is Some);
        assert(array.locates(i));
        if let Some(datums) = array.datums {
            assert(T::accepts(
                datums[i],
                array.nulls.null_at(i) == Some(true),
                array.raw.unwrap().oid,
            ));
        }
    }
}

/// Reading gives an element before the array's end and nothing past it. At the end itself that
/// holds of an array with a bitmap.
pub proof fn reading_gives_elements_before_the_end<'a, T: FromDatum<'a>>(
    array: ArrayView<'a, T>,
    i: int,
    value: Option<Option<T>>,
)
    requires
        array.well_formed(),
        0 <= i,
        i != array.nelems || array.raw.unwrap().nulls is Some,
        array.gives(i, value),
    ensures
        value is Some <==> i < array.nelems,
{
    well_formed_array_knows_its_elements(array);
    assert(i < array.nelems ==> array.nulls.null_at(i) is Some);
}

/// Reading past the end of a well-formed array is allowed and gives nothing.
pub proof fn past_the_end_there_is_nothing<'a, T: FromDatum<'a>>(
    array: ArrayView<'a, T>,
    i: int,
    value: Option<Option<T>>,
)
    requires
        array.well_formed(),
        i > array.nelems,
    ensures
        array.reads(i),
        array.gives(i, value) <==> value is None,
{
}

/// A well-formed array may be walked as values exactly where none of its elements is NULL,
/// and the test that guards the slice finds a NULL exactly where that walk is refused.
pub proof fn null_tests_agree<'a, T: FromDatum<'a>>(array: ArrayView<'a, T>)
    requires
        array.well_formed(),
    ensures
        array.walk_denial() is None <==> forall|i: int|
            0 <= i < array.nelems ==> #[trigger] array.nulls.null_at(i) == Some(false),
        array.walk_denial() is None || array.walk_denial() == Some(WalkDenial::ContainsNull),
        array.walk_denial() == Some(WalkDenial::ContainsNull) <==> array.slice_denial() == Some(
            SliceDenial::NullDetected,
        ),
{
    let nulls = array.nulls;
    if nulls.has_null() {
        let i = choose|i: int| #[trigger] nulls.null_at(i) == Some(true);
        assert(0 <= i < array.nelems);
    } else {
        assert forall|i: int| 0 <= i < array.nelems implies #[trigger] nulls.null_at(i) == Some(
            false,
        ) by {
            assert(nulls.null_at(i) != Some(true));
        }
    }
}

/// The walk over values meets a value at every position of an array that it was granted on,
/// unless `T` makes none of a datum that is not NULL: it cannot come upon a NULL.
pub proof fn granted_walk_meets_only_values<'a, T: FromDatum<'a>>(array: ArrayView<'a, T>)
    requires
        array.well_formed(),
        array.walk_denial() is None,
        array.has_all_slots(),
        array.converts_all(),
        array.datums matches Some(datums) ==> forall|i: int, value: Option<T>|
            0 <= i < array.nelems && #[trigger] T::converts(
                datums[i],
                false,
                array.raw.unwrap().oid,
                value,
            ) ==> value is Some,
    ensures
        forall|i: int| 0 <= i < array.nelems ==> #[trigger] array.element_has_value(i),
{
    null_tests_agree(array);
    well_formed_array_reads_its_elements(array);
    assert forall|i: int| 0 <= i < array.nelems implies #[trigger] array.element_has_value(i) by {
        assert(array.nulls.null_at(i) == Some(false));
        assert(array.element_reads(i));
    }
}

/// An array of slots without a NULL can always be seen as a slice, which has an element for
/// each of the array's, and reading an element gives what stands in the slice at its position.
pub proof fn slice_holds_what_reading_gives<'a, T: FromDatum<'a>>(
    array: ArrayView<'a, T>,
    i: int,
    value: Option<Option<T>>,
)
    requires
        array.well_formed(),
        array.slots is Some,
        T::slotted(),
        array.walk_denial() is None,
        0 <= i < array.nelems <= array.raw.unwrap().data@.len(),
    ensures
        array.slice_denial() is None,
        array.slice().len() == array.nelems,
        array.reads(i),
        array.gives(i, value) <==> value == Some(Some(array.slice()[i])),
{
    null_tests_agree(array);
    assert(array.nulls.null_at(i) == Some(false));
    slots_are_positions_without_nulls(array.nulls, i);
}

/// Of an array of datums without a NULL the same holds, where the layouts allow a slice and
/// `T` makes of each datum what the data area holds at its position.
pub proof fn slice_holds_what_datums_convert_to<'a, T: FromDatum<'a>>(
    array: ArrayView<'a, T>,
    i: int,
    value: Option<Option<T>>,
)
    requires
        array.well_formed(),
        array.walk_denial() is None,
        array.layout.in_slice::<T>(),
        0 <= i < array.nelems <= array.raw.unwrap().data@.len(),
        array.converts_all(),
        array.datums matches Some(datums) && forall|made: Option<T>| #[trigger]
            T::converts(datums[i], false, array.raw.unwrap().oid, made) <==> made == Some(
                array.raw.unwrap().data@[i],
            ),
    ensures
        array.slice_denial() is None,
        array.slice().len() == array.nelems,
        array.reads(i),
        array.gives(i, value) <==> value == Some(Some(array.slice()[i])),
{
    null_tests_agree(array);
    well_formed_array_reads_its_elements(array);
    assert(array.nulls.null_at(i) == Some(false));
    assert(array.element_reads(i));
}

/// Where what the server made of the array agrees with the array's header, each datum is
/// converted with the NULL flag that the server gave for it.
pub proof fn datums_keep_their_null_flags<'a, T: FromDatum<'a>>(
    ptr: usize,
    raw: RawArray<'a, T>,
    elem_layout: Layout,
    parts: Deconstructed<'a, T::Referent>,
    i: int,
    value: Option<T>,
)
    requires
        !elem_layout.in_slots::<T>(),
        raw.agrees_with(parts),
        0 <= i < raw.len,
    ensures
        makes_array(raw, elem_layout, Some(parts)),
        made_array(ptr, raw, elem_layout, Some(parts)).gives(i, Some(value)) <==> T::converts(
            parts.datums@[i],
            parts.nulls@[i],
            raw.oid,
            value,
        ),
{
}

/// A walk from the start reads each element once, in order, and then is at its end, where it
/// stays.
pub proof fn walk_reads_each_element_in_order<'a, T: FromDatum<'a>>(walk: WalkView<'a, T>)
    requires
        walk.curr == 0,
    ensures
        forall|i: nat, item: Option<T>|
            i < walk.array.nelems ==> (#[trigger] walk.after(i).steps_to(Some(item))
                <==> walk.array.gives(i as int, Some(item))),
        forall|i: nat| i < walk.array.nelems ==> !(#[trigger] walk.after(i)).steps_to(None),
        forall|i: nat, item: Option<Option<T>>|
            i >= walk.array.nelems ==> (#[trigger] walk.after(i).steps_to(item) <==> item is None),
{
    assert forall|i: nat, item: Option<T>| i < walk.array.nelems implies (
    #[trigger] walk.after(i).steps_to(Some(item)) <==> walk.array.gives(
        i as int,
        Some(item),
    )) by {
        lemma_after(walk, i);
    }
    assert forall|i: nat| i < walk.array.nelems implies !(#[trigger] walk.after(i)).steps_to(
        None,
    ) by {
        lemma_after(walk, i);
    }
    assert forall|i: nat, item: Option<Option<T>>| i >= walk.array.nelems implies (
    #[trigger] walk.after(i).steps_to(item) <==> item is None) by {
        lemma_after(walk, i);
    }
}

proof fn lemma_after<'a, T: FromDatum<'a>>(walk: WalkView<'a, T>, steps: nat)
    requires
        walk.curr == 0,
    ensures
        walk.after(steps) == (WalkView {
            curr: if steps < walk.array.nelems {
                steps
            } else {
                walk.array.nelems
            },
            ..walk
        }),
    decreases steps,
{
    if steps > 0 {
        lemma_after(walk, (steps - 1) as nat);
    }
}

/// A NULL datum converts to nothing, be it to an array, to the arguments of a variadic
/// function or to a vector; so does the null address, but for the vector of plain values,
/// which does not take it.
pub proof fn null_datum_converts_to_nothing<'a, T: FromDatum<'a>>(
    datum: Datum<'a, ArrayReferent<'a, T>>,
    is_null: bool,
    typoid: u32,
)
    requires
        !stands(datum, is_null),
    ensures
        Array::<'a, T>::accepts(datum, is_null, typoid),
        forall|value: Option<Array<'a, T>>| #[trigger]
            Array::<'a, T>::converts(datum, is_null, typoid, value) <==> value is None,
        VariadicArray::<'a, T>::accepts(datum, is_null, typoid),
        forall|value: Option<VariadicArray<'a, T>>| #[trigger]
            VariadicArray::<'a, T>::converts(datum, is_null, typoid, value) <==> value is None,
        <Vec<Option<T>> as FromDatum<'a>>::accepts(datum, is_null, typoid),
        forall|value: Option<Vec<Option<T>>>| #[trigger]
            <Vec<Option<T>> as FromDatum<'a>>::converts(datum, is_null, typoid, value)
                <==> value is None,
        <Vec<T> as FromDatum<'a>>::accepts(datum, is_null, typoid) <==> is_null,
        is_null ==> forall|value: Option<Vec<T>>| #[trigger]
            <Vec<T> as FromDatum<'a>>::converts(datum, is_null, typoid, value) <==> value is None,
{
}

/// A datum converts to a vector of plain values only where it converts to a vector of
/// elements, and the values are then what the elements may be.
pub proof fn vectors_agree<'a, T: FromDatum<'a>>(
    datum: Datum<'a, ArrayReferent<'a, T>>,
    is_null: bool,
    typoid: u32,
    values: Vec<T>,
    elements: Vec<Option<T>>,
)
    requires
        <Vec<T> as FromDatum<'a>>::accepts(datum, is_null, typoid),
        elements@ == values@.map_values(|value: T| Some(value)),
    ensures
        <Vec<Option<T>> as FromDatum<'a>>::accepts(datum, is_null, typoid),
        <Vec<T> as FromDatum<'a>>::converts(datum, is_null, typoid, Some(values)) <==> <Vec<
            Option<T>,
        > as FromDatum<'a>>::converts(datum, is_null, typoid, Some(elements)),
{
    if !is_null {
        let array = array_at(datum);
        assert forall|i: int| 0 <= i < array.nelems implies #[trigger] array.element_reads(i) by {
            assert(array.element_has_value(i));
        }
        if <Vec<Option<T>> as FromDatum<'a>>::converts(datum, is_null, typoid, Some(elements)) {
            assert forall|i: int| 0 <= i < values@.len() implies array.gives(
                i,
                Some(Some(#[trigger] values@[i])),
            ) by {
                assert(array.gives(i, Some(elements@[i])));
            }
        }
    }
}

/// No element that a vector of elements holds is read otherwise by index: the vector has the
/// array's length, and position `i` holds what reading element `i` may give.
pub proof fn vector_holds_what_reading_gives<'a, T: FromDatum<'a>>(
    datum: Datum<'a, ArrayReferent<'a, T>>,
    typoid: u32,
    elements: Vec<Option<T>>,
    array: Array<'a, T>,
)
    requires
        stands(datum, false),
        refers(datum),
        Array::<'a, T>::converts(datum, false, typoid, Some(array)),
        <Vec<Option<T>> as FromDatum<'a>>::converts(datum, false, typoid, Some(elements)),
    ensures
        elements@.len() == array@.nelems,
        forall|i: int|
            0 <= i < elements@.len() ==> array@.gives(i, Some(#[trigger] elements@[i])),
{
}

/// Where each value has one conversion, a builder from a vector and one from a slice of the
/// same values are the same.
pub proof fn builders_agree<T: IntoDatum>(
    one: BuilderView,
    other: BuilderView,
    element_type: u32,
    values: Seq<T>,
)
    requires
        one.starts(element_type, values),
        other.starts(element_type, values),
        forall|i: int, a: Option<usize>, b: Option<usize>|
            0 <= i < values.len() && #[trigger] values[i].produces(a) && #[trigger] values[i].produces(
                b,
            ) ==> a == b,
    ensures
        one == other,
{
    assert forall|i: int| 0 <= i < values.len() implies one.elements[i] == other.elements[i] by {
        assert(becomes(values[i], one.elements[i]));
        assert(becomes(values[i], other.elements[i]));
    }
    assert(one.elements =~= other.elements);
}

/// Where the server's datums and flags are a builder's elements, a vector of elements that is
/// read from the array holds, at each position, what `T` makes of a word that the value at
/// that position produces.
pub proof fn vector_holds_what_was_built<'a, T: FromDatum<'a>, U: IntoDatum>(
    builder: BuilderView,
    element_type: u32,
    values: Seq<U>,
    datum: Datum<'a, ArrayReferent<'a, T>>,
    typoid: u32,
    elements: Vec<Option<T>>,
)
    requires
        builder.starts(element_type, values),
        datum.word != 0,
        refers(datum),
        !datum.referent.unwrap().elem_layout.in_slots::<T>(),
        datum.referent.unwrap().raw.agrees_with(datum.referent.unwrap().parts.unwrap()),
        holds_elements(datum.referent.unwrap().parts.unwrap(), builder.elements),
        <Vec<Option<T>> as FromDatum<'a>>::converts(datum, false, typoid, Some(elements)),
    ensures
        elements@.len() == values.len(),
        forall|i: int|
            0 <= i < values.len() ==> made_of_value(
                #[trigger] values[i],
                datum.referent.unwrap().parts.unwrap().datums@[i],
                datum.referent.unwrap().raw.oid,
                elements@[i],
            ),
{
    let at = datum.referent.unwrap();
    let parts = at.parts.unwrap();
    assert forall|i: int| 0 <= i < values.len() implies made_of_value(
        #[trigger] values[i],
        parts.datums@[i],
        at.raw.oid,
        elements@[i],
    ) by {
        assert(becomes(values[i], builder.elements[i]));
        let word = choose|word: Option<usize>| #[trigger]
            values[i].produces(word) && builder.elements[i] == element_of(word);
        assert(parts.nulls@[i] == builder.elements[i].is_null);
        assert(array_at(datum).gives(i, Some(elements@[i])));
        assert(values[i].produces(word));
    }
}

/// Whether the server's datums and NULL flags are these elements.
pub open spec fn holds_elements<'a, R>(
    parts: Deconstructed<'a, R>,
    elements: Seq<Element>,
) -> bool {
    &&& parts.datums@.len() == elements.len()
    &&& parts.nulls@.len() == elements.len()
    &&& forall|i: int|
        0 <= i < elements.len() ==> (#[trigger] elements[i]) == (Element {
            word: parts.datums@[i].word,
            is_null: parts.nulls@[i],
        })
}

/// Whether `made` is what `T` makes of a word that `value` produces, where `datum` carries that
/// word.
pub open spec fn made_of_value<'a, T: FromDatum<'a>, U: IntoDatum>(
    value: U,
    datum: Datum<'a, T::Referent>,
    oid: u32,
    made: Option<T>,
) -> bool {
    exists|word: Option<usize>| #[trigger]
        value.produces(word) && datum.word == element_of(word).word && T::converts(
            datum,
            word is None,
            oid,
            made,
        )
}

/// Whether element `i` is kept, in its slot or its datum, so that `T` makes `original` of it.
pub open spec fn element_kept<'a, T: FromDatum<'a>>(
    at: ArrayReferent<'a, T>,
    element: Element,
    i: int,
    original: Option<T>,
) -> bool {
    if at.elem_layout.in_slots::<T>() {
        if element.is_null {
            original is None
        } else {
            let slot = at.raw.null_kind().present_before(i) as int;
            slot < at.raw.data@.len() && original == Some(at.raw.data@[slot])
        }
    } else {
        converts_to(at.parts.unwrap().datums@[i], element.is_null, at.raw.oid, original)
    }
}

/// Whether the server keeps a builder's elements: its array has as many, with the same ones
/// NULL, and every element is kept so that `T` makes of it what stands in `originals`, nothing
/// where it is NULL. An array of slots keeps the elements that are not NULL in its slots, in
/// order; any other gives a datum for each.
pub open spec fn keeps<'a, T: FromDatum<'a>>(
    at: ArrayReferent<'a, T>,
    elements: Seq<Element>,
    originals: Seq<Option<T>>,
) -> bool {
    &&& at.raw.len == elements.len() == originals.len()
    &&& if at.elem_layout.in_slots::<T>() {
        T::slotted()
    } else {
        at.parts matches Some(parts) && parts.datums@.len() == elements.len()
    }
    &&& forall|i: int|
        0 <= i < elements.len() ==> at.raw.null_kind().null_at(i) == Some(
            (#[trigger] elements[i]).is_null,
        )
    &&& forall|i: int|
        0 <= i < elements.len() ==> element_kept(at, #[trigger] elements[i], i, originals[i])
}

/// Whether `T` converts the datum, and to nothing but `original`.
pub open spec fn converts_to<'a, T: FromDatum<'a>>(
    datum: Datum<'a, T::Referent>,
    is_null: bool,
    oid: u32,
    original: Option<T>,
) -> bool {
    &&& T::accepts(datum, is_null, oid)
    &&& forall|value: Option<T>| #[trigger]
        T::converts(datum, is_null, oid, value) ==> value == original
}

/// What is written is read back: where the server keeps the elements that a builder made of
/// some values, so that `T` makes of each what `back` says of its value, a vector of elements
/// that is read from its array holds just that for every value, in order, NULLs where they
/// were; and where none of them is NULL so does a vector of plain values.
pub proof fn written_vector_reads_back<'a, T: FromDatum<'a>, U: IntoDatum>(
    builder: BuilderView,
    element_type: u32,
    values: Seq<U>,
    back: spec_fn(U) -> Option<T>,
    datum: Datum<'a, ArrayReferent<'a, T>>,
    typoid: u32,
)
    requires
        builder.starts(element_type, values),
        datum.word != 0,
        datum.referent matches Some(at) && at.raw.ptr != 0 && keeps(
            *at,
            builder.elements,
            values.map_values(back),
        ),
    ensures
        <Vec<Option<T>> as FromDatum<'a>>::accepts(datum, false, typoid),
        forall|read: Option<Vec<Option<T>>>| #[trigger]
            <Vec<Option<T>> as FromDatum<'a>>::converts(datum, false, typoid, read) ==> (
            read matches Some(elements) && elements@ == values.map_values(back)),
        (forall|i: int| 0 <= i < values.len() ==> back(#[trigger] values[i]) is Some) ==> {
            &&& <Vec<T> as FromDatum<'a>>::accepts(datum, false, typoid)
            &&& forall|read: Option<Vec<T>>| #[trigger]
                <Vec<T> as FromDatum<'a>>::converts(datum, false, typoid, read) ==> (
                read matches Some(plain) && plain@.map_values(|value: T| Some(value))
                    == values.map_values(back))
        },
{
    let at = *datum.referent.unwrap();
    let array = array_at(datum);
    let elements = builder.elements;
    let originals = values.map_values(back);
    assert forall|i: int| 0 <= i < array.nelems implies #[trigger] array.element_reads(i) by {
        assert(array.nulls.null_at(i) == Some(elements[i].is_null));
    }
    assert forall|i: int, value: Option<T>|
        0 <= i < array.nelems && #[trigger] array.gives(i, Some(value)) implies value
        == originals[i] by {
        assert(array.nulls.null_at(i) == Some(elements[i].is_null));
        if at.elem_layout.in_slots::<T>() {
            assert(elements[i].is_null || value == Some(
                at.raw.data@[at.raw.null_kind().present_before(i) as int],
            ));
        } else {
            assert(converts_to(
                at.parts.unwrap().datums@[i],
                elements[i].is_null,
                at.raw.oid,
                originals[i],
            ));
        }
    }
    assert forall|read: Option<Vec<Option<T>>>| #[trigger]
        <Vec<Option<T>> as FromDatum<'a>>::converts(datum, false, typoid, read) implies (
    read matches Some(elements) && elements@ == originals) by {
        let found = read.unwrap()@;
        assert forall|i: int| 0 <= i < found.len() implies found[i] == originals[i] by {
            assert(array.gives(i, Some(found[i])));
        }
        assert(found =~= originals);
    }
    if forall|i: int| 0 <= i < values.len() ==> back(#[trigger] values[i]) is Some {
        assert forall|i: int| 0 <= i < array.nelems implies #[trigger] array.element_has_value(
            i,
        ) by {
            assert(array.element_reads(i));
            assert(originals[i] == back(values[i]));
        }
        assert forall|read: Option<Vec<T>>| #[trigger]
            <Vec<T> as FromDatum<'a>>::converts(datum, false, typoid, read) implies (
        read matches Some(plain) && plain@.map_values(|value: T| Some(value)) == originals) by {
            let found = read.unwrap()@;
            assert forall|i: int| 0 <= i < found.len() implies Some(found[i]) == originals[i] by {
                assert(array.gives(i, Some(Some(found[i]))));
            }
            assert(found.map_values(|value: T| Some(value)) =~= originals);
        }
    }
}

/// A vector of values that the server keeps is read back as the same vector.
pub proof fn written_values_read_back<'a, T: FromDatum<'a> + IntoDatum>(
    builder: BuilderView,
    element_type: u32,
    values: Seq<T>,
    datum: Datum<'a, ArrayReferent<'a, T>>,
    typoid: u32,
)
    requires
        builder.starts(element_type, values),
        datum.word != 0,
        datum.referent matches Some(at) && at.raw.ptr != 0 && keeps(
            *at,
            builder.elements,
            values.map_values(|value: T| Some(value)),
        ),
    ensures
        <Vec<T> as FromDatum<'a>>::accepts(datum, false, typoid),
        forall|read: Option<Vec<T>>| #[trigger]
            <Vec<T> as FromDatum<'a>>::converts(datum, false, typoid, read) ==> (
            read matches Some(plain) && plain@ == values),
{
    let back = |value: T| Some(value);
    written_vector_reads_back(builder, element_type, values, back, datum, typoid);
    assert forall|read: Option<Vec<T>>| #[trigger]
        <Vec<T> as FromDatum<'a>>::converts(datum, false, typoid, read) implies (
    read matches Some(plain) && plain@ == values) by {
        let plain = read.unwrap()@;
        assert(plain.map_values(back) == values.map_values(back));
        assert forall|i: int| 0 <= i < plain.len() implies plain[i] == values[i] by {
            assert(plain.map_values(back)[i] == values.map_values(back)[i]);
        }
        assert(plain.len() == plain.map_values(back).len());
        assert(plain =~= values);
    }
}

/// Whether the server's array stands for a builder's elements: it has as many, with the same
/// ones NULL, and the slot or the datum of every other one stands for its word, as
/// `slot_stands` and `datum_stands` say. A datum passed by value stands for the word that it
/// is; one passed by reference stands for a word where it is the address of a copy.
pub open spec fn stands_for<'a, T: FromDatum<'a>>(
    at: ArrayReferent<'a, T>,
    elements: Seq<Element>,
    slot_stands: spec_fn(T, usize) -> bool,
    datum_stands: spec_fn(Datum<'a, T::Referent>, usize) -> bool,
) -> bool {
    let nulls = at.raw.null_kind();
    &&& at.raw.len == elements.len()
    &&& forall|i: int|
        0 <= i < elements.len() ==> nulls.null_at(i) == Some((#[trigger] elements[i]).is_null)
    &&& if at.elem_layout.in_slots::<T>() {
        forall|i: int|
            0 <= i < elements.len() && !(#[trigger] elements[i]).is_null ==> {
                let slot = nulls.present_before(i) as int;
                slot < at.raw.data@.len() && slot_stands(at.raw.data@[slot], elements[i].word)
            }
    } else {
        &&& at.parts matches Some(parts) && parts.datums@.len() == elements.len()
        &&& forall|i: int|
            0 <= i < elements.len() && !(#[trigger] elements[i]).is_null ==> datum_stands(
                at.parts.unwrap().datums@[i],
                elements[i].word,
            )
    }
}

/// Whether reading undoes writing, as far as one value goes: what stands for a word that
/// `value` produces is read as `original`, and where it produces a NULL that is read as none.
pub open spec fn reads_back<'a, T: FromDatum<'a>, U: IntoDatum>(
    value: U,
    original: Option<T>,
    oid: u32,
    slot_stands: spec_fn(T, usize) -> bool,
    datum_stands: spec_fn(Datum<'a, T::Referent>, usize) -> bool,
) -> bool {
    &&& forall|slot: T, word: usize|
        value.produces(Some(word)) && #[trigger] slot_stands(slot, word) ==> original == Some(slot)
    &&& forall|datum: Datum<'a, T::Referent>, word: usize|
        value.produces(Some(word)) && #[trigger] datum_stands(datum, word) ==> converts_to(
            datum,
            false,
            oid,
            original,
        )
    &&& value.produces(None) ==> original is None && forall|datum: Datum<'a, T::Referent>|
        #[trigger] converts_to::<T>(datum, true, oid, None)
}

/// What is written is read back, from the words on: where the server's array stands for the
/// words that a builder made of some values, and reading undoes writing for each of them, a
/// vector of elements that is read from the array holds what `back` says of every value, in
/// order, NULLs where they were; and where none is NULL so does a vector of plain values.
pub proof fn written_words_read_back<'a, T: FromDatum<'a>, U: IntoDatum>(
    builder: BuilderView,
    element_type: u32,
    values: Seq<U>,
    back: spec_fn(U) -> Option<T>,
    slot_stands: spec_fn(T, usize) -> bool,
    datum_stands: spec_fn(Datum<'a, T::Referent>, usize) -> bool,
    datum: Datum<'a, ArrayReferent<'a, T>>,
    typoid: u32,
)
    requires
        builder.starts(element_type, values),
        datum.word != 0,
        datum.referent matches Some(at) && {
            &&& at.raw.ptr != 0
            &&& at.elem_layout.in_slots::<T>() ==> T::slotted()
            &&& stands_for(*at, builder.elements, slot_stands, datum_stands)
            &&& forall|i: int|
                0 <= i < values.len() ==> reads_back(
                    #[trigger] values[i],
                    back(values[i]),
                    at.raw.oid,
                    slot_stands,
                    datum_stands,
                )
        },
    ensures
        keeps(*datum.referent.unwrap(), builder.elements, values.map_values(back)),
        <Vec<Option<T>> as FromDatum<'a>>::accepts(datum, false, typoid),
        forall|read: Option<Vec<Option<T>>>| #[trigger]
            <Vec<Option<T>> as FromDatum<'a>>::converts(datum, false, typoid, read) ==> (
            read matches Some(elements) && elements@ == values.map_values(back)),
        (forall|i: int| 0 <= i < values.len() ==> back(#[trigger] values[i]) is Some) ==> {
            &&& <Vec<T> as FromDatum<'a>>::accepts(datum, false, typoid)
            &&& forall|read: Option<Vec<T>>| #[trigger]
                <Vec<T> as FromDatum<'a>>::converts(datum, false, typoid, read) ==> (
                read matches Some(plain) && plain@.map_values(|value: T| Some(value))
                    == values.map_values(back))
        },
{
    let at = *datum.referent.unwrap();
    let elements = builder.elements;
    let originals = values.map_values(back);
    assert forall|i: int| 0 <= i < elements.len() implies element_kept(
        at,
        #[trigger] elements[i],
        i,
        originals[i],
    ) by {
        let value = values[i];
        assert(reads_back(value, back(value), at.raw.oid, slot_stands, datum_stands));
        assert(becomes(value, elements[i]));
        let word = choose|word: Option<usize>| #[trigger]
            value.produces(word) && elements[i] == element_of(word);
        assert(value.produces(word));
        if let Some(w) = word {
            if at.elem_layout.in_slots::<T>() {
                let slot = at.raw.null_kind().present_before(i) as int;
                assert(slot_stands(at.raw.data@[slot], w));
            } else {
                assert(datum_stands(at.parts.unwrap().datums@[i], w));
            }
        } else if !at.elem_layout.in_slots::<T>() {
            assert(converts_to::<T>(at.parts.unwrap().datums@[i], true, at.raw.oid, None));
        }
    }
    written_vector_reads_back(builder, element_type, values, back, datum, typoid);
}

/// Values of a type that the server passes by value are read back as written, from slots and
/// from datums alike: where each value makes one word, which `T` converts back to it, where
/// the slots hold values that make the builder's words and the datums are those words, a
/// vector of plain values that is read from the array is the vector that was written.
pub proof fn words_passed_by_value_read_back<'a, T: FromDatum<'a> + IntoDatum>(
    builder: BuilderView,
    element_type: u32,
    values: Seq<T>,
    datum: Datum<'a, ArrayReferent<'a, T>>,
    typoid: u32,
)
    requires
        builder.starts(element_type, values),
        datum.word != 0,
        datum.referent matches Some(at) && {
            &&& at.raw.ptr != 0
            &&& at.elem_layout.in_slots::<T>() ==> T::slotted()
            &&& stands_for(
                *at,
                builder.elements,
                |slot: T, word: usize| slot.produces(Some(word)),
                |part: Datum<'a, T::Referent>, word: usize| part.word == word,
            )
            &&& forall|value: T, part: Datum<'a, T::Referent>| #[trigger]
                value.produces(Some(part.word)) ==> converts_to(
                    part,
                    false,
                    at.raw.oid,
                    Some(value),
                )
        },
        forall|value: T| !#[trigger] value.produces(None),
        forall|a: T, b: T, word: usize| #[trigger]
            a.produces(Some(word)) && #[trigger] b.produces(Some(word)) ==> a == b,
    ensures
        <Vec<T> as FromDatum<'a>>::accepts(datum, false, typoid),
        forall|read: Option<Vec<T>>| #[trigger]
            <Vec<T> as FromDatum<'a>>::converts(datum, false, typoid, read) ==> (
            read matches Some(plain) && plain@ == values),
{
    let at = *datum.referent.unwrap();
    let back = |value: T| Some(value);
    let slot_stands = |slot: T, word: usize| slot.produces(Some(word));
    let datum_stands = |part: Datum<'a, T::Referent>, word: usize| part.word == word;
    assert forall|i: int| 0 <= i < values.len() implies reads_back(
        #[trigger] values[i],
        back(values[i]),
        at.raw.oid,
        slot_stands,
        datum_stands,
    ) by {
        let value = values[i];
        assert forall|part: Datum<'a, T::Referent>, word: usize|
            value.produces(Some(word)) && #[trigger] datum_stands(part, word) implies converts_to(
            part,
            false,
            at.raw.oid,
            back(value),
        ) by {
            assert(value.produces(Some(part.word)));
        }
    }
    written_words_read_back(
        builder,
        element_type,
        values,
        back,
        slot_stands,
        datum_stands,
        datum,
        typoid,
    );
    written_values_read_back(builder, element_type, values, datum, typoid);
}

/// An array that is read as slots owns nothing to be freed, and no array frees the raw array
/// that it came in by: what follows the datums' own allocation is a copy of it.
pub proof fn freed_arrays_are_copies<'a, T: FromDatum<'a>>(array: ArrayView<'a, T>)
    requires
        array.well_formed(),
    ensures
        array.slots is Some ==> array.owned().len() == 0,
        array.datum_palloc matches Some(data) ==> array.owned().len() > 0 && array.owned()[0]
            == data,
        forall|i: int|
            1 <= i < array.owned().len() ==> #[trigger] array.owned()[i] == array.raw.unwrap().ptr
                && array.owned()[i] != array.ptr,
        array.owned().len() <= 2,
{
}

/// Each allocation is handed out to be freed once: an array that has been released owns
/// nothing any more.
pub proof fn released_array_owns_nothing<'a, T: FromDatum<'a>>(array: ArrayView<'a, T>)
    ensures
        array.released().owned().len() == 0,
        array.released().released() == array.released(),
{
}

/// An array and the arguments of a variadic function convert from a datum alike.
pub proof fn variadic_array_converts_like_array<'a, T: FromDatum<'a>>(
    datum: Datum<'a, ArrayReferent<'a, T>>,
    is_null: bool,
    typoid: u32,
    array: Array<'a, T>,
    variadic: VariadicArray<'a, T>,
)
    requires
        array@ == variadic@,
    ensures
        Array::<'a, T>::accepts(datum, is_null, typoid) <==> VariadicArray::<'a, T>::accepts(
            datum,
            is_null,
            typoid,
        ),
        Array::<'a, T>::converts(datum, is_null, typoid, Some(array)) <==> VariadicArray::<
            'a,
            T,
        >::converts(datum, is_null, typoid, Some(variadic)),
        Array::<'a, T>::converts(datum, is_null, typoid, None) <==> VariadicArray::<
            'a,
            T,
        >::converts(datum, is_null, typoid, None),
{
}

/// An array and the arguments of a variadic function are written alike in SQL.
pub proof fn variadic_array_is_written_like_array<'a, T: SqlTranslatable + FromDatum<'a>>(
    argument: Result<SqlMapping, ArgumentError>,
    returned: Result<Returns, ReturnsError>,
)
    ensures
        Array::<'a, T>::argument(argument) <==> VariadicArray::<'a, T>::argument(argument),
        Array::<'a, T>::returned(returned) <==> VariadicArray::<'a, T>::returned(returned),
{
}

/// An array is always written as one value, with its brackets or the mark for them, whatever
/// the element type answers; a refusal of the element type stands.
pub proof fn array_is_written_with_brackets(
    element: Result<SqlMapping, ArgumentError>,
    argument: Result<SqlMapping, ArgumentError>,
    returned_element: Result<Returns, ReturnsError>,
    returned: Result<Returns, ReturnsError>,
)
    requires
        array_argument(element, argument),
        array_return(returned_element, returned),
    ensures
        argument matches Ok(mapping) ==> has_brackets(mapping),
        returned matches Ok(answer) ==> (answer matches Returns::One(mapping) && has_brackets(
            mapping,
        )),
        element is Err ==> argument == element,
        returned_element is Err ==> returned == returned_element,
{
    reveal_strlit("[]");
    if let Ok(SqlMapping::As(text)) = argument {
        assert(text@.subrange(text@.len() - 2, text@.len() as int) =~= "[]"@);
    }
    if let Ok(Returns::One(SqlMapping::As(text))) = returned {
        assert(text@.subrange(text@.len() - 2, text@.len() as int) =~= "[]"@);
    }
}

/// Whether a type is written as an array: its text ends in brackets, or the mark for them is
/// set.
pub open spec fn has_brackets(mapping: SqlMapping) -> bool {
    match mapping {
        SqlMapping::As(text) => text@.len() >= 2 && text@.subrange(
            text@.len() - 2,
            text@.len() as int,
        ) == "[]"@,
        SqlMapping::Composite { array_brackets } => array_brackets,
        SqlMapping::Source { array_brackets } => array_brackets,
        SqlMapping::Skip => false,
    }
}

} // verus!
