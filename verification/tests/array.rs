use pgx_array::array::{Array, SliceDenial, WalkDenial};
use pgx_array::builder::{ArrayBuilder, BuildStep};
use pgx_array::convert::{
    release_at, stands_for_array, vector_from_datum, ArrayReferent, VectorError,
};
use pgx_array::datum::{Datum, FromDatum, IntoDatum};
use pgx_array::iter::TypedStep;
use pgx_array::layout::{Layout, PassBy};
use pgx_array::nulls::NullBitmap;
use pgx_array::raw::{DeconstructCall, Deconstructed, RawArray};
use pgx_array::variadic::VariadicArray;

#[derive(Clone, Copy, Debug, PartialEq)]
struct Int4(i32);

impl<'a> FromDatum<'a> for Int4 {
    type Referent = ();

    fn read_slot(slot: &Self) -> Option<Self> {
        Some(*slot)
    }

    fn from_polymorphic_datum(datum: Datum<'a, ()>, is_null: bool, _typoid: u32) -> Option<Self> {
        if is_null {
            None
        } else {
            Some(Int4(datum.word as i32))
        }
    }
}

#[derive(Clone, Copy, Debug, PartialEq)]
struct Int8(i64);

impl<'a> FromDatum<'a> for Int8 {
    type Referent = ();

    fn read_slot(slot: &Self) -> Option<Self> {
        Some(*slot)
    }

    fn from_polymorphic_datum(datum: Datum<'a, ()>, is_null: bool, _typoid: u32) -> Option<Self> {
        if is_null {
            None
        } else {
            Some(Int8(datum.word as i64))
        }
    }
}

/// A text, with the type that it was converted as.
#[derive(Clone, Debug, PartialEq)]
struct Text(String, u32);

impl<'a> FromDatum<'a> for Text {
    type Referent = String;

    fn read_slot(_slot: &Self) -> Option<Self> {
        None
    }

    fn from_polymorphic_datum(
        datum: Datum<'a, String>,
        is_null: bool,
        typoid: u32,
    ) -> Option<Self> {
        if is_null {
            None
        } else {
            datum.referent.map(|text| Text(text.clone(), typoid))
        }
    }
}

const INT4: Layout = Layout { typlen: 4, typalign: 'i', pass: PassBy::Value };
const INT8: Layout = Layout { typlen: 8, typalign: 'd', pass: PassBy::Value };
const TEXT: Layout = Layout { typlen: -1, typalign: 'i', pass: PassBy::Ref };

fn int4_raw<'a>(data: &'a [Int4], nulls: Option<NullBitmap<'a>>) -> RawArray<'a, Int4> {
    RawArray { ptr: 0x2000, oid: 23, len: data.len(), nulls, data }
}

fn words<'a, R>(words: &[usize]) -> Vec<Datum<'a, R>> {
    words.iter().map(|word| Datum { word: *word, referent: None }).collect()
}

#[test]
fn layouts_match_on_size_and_alignment() {
    assert_eq!(INT4.matches::<i32>(), Some(4));
    assert_eq!(INT4.matches::<i64>(), None);
    assert_eq!(INT4.matches::<[u8; 4]>(), None);
    assert_eq!(INT8.matches::<i64>(), Some(8));
    assert_eq!(TEXT.matches::<i32>(), None);
    let byte = Layout { typlen: 1, typalign: 'c', pass: PassBy::Value };
    assert_eq!(byte.matches::<bool>(), Some(1));
    let short = Layout { typlen: 2, typalign: 's', pass: PassBy::Value };
    assert_eq!(short.matches::<i16>(), Some(2));
    let unknown = Layout { typlen: 1, typalign: 'x', pass: PassBy::Value };
    assert_eq!(unknown.matches::<u8>(), None);
}

#[test]
fn only_small_values_are_read_as_slots() {
    assert!(INT4.slots::<i32>());
    assert!(!INT8.slots::<i64>());
    assert!(INT8.sliceable::<i64>());
    let by_ref = Layout { pass: PassBy::Ref, ..INT4 };
    assert!(!by_ref.slots::<i32>());
    assert!(by_ref.sliceable::<i32>());
    assert!(!TEXT.sliceable::<i32>());
}

#[test]
fn server_is_asked_to_take_apart_what_is_not_read_as_slots() {
    let data = [Int4(1)];
    assert_eq!(int4_raw(&data, None).deconstruct_call(INT4), None);
    let raw: RawArray<'_, Text> = RawArray { ptr: 0x3000, oid: 25, len: 2, nulls: None, data: &[] };
    assert_eq!(
        raw.deconstruct_call(TEXT),
        Some(DeconstructCall {
            array: 0x3000,
            elmtype: 25,
            elmlen: -1,
            elmbyval: false,
            elmalign: 'i',
        })
    );
    let eight: RawArray<'_, Int8> = RawArray { ptr: 0x3000, oid: 20, len: 2, nulls: None, data: &[] };
    assert_eq!(
        eight.deconstruct_call(INT8),
        Some(DeconstructCall {
            array: 0x3000,
            elmtype: 20,
            elmlen: 8,
            elmbyval: true,
            elmalign: 'd',
        })
    );
}

#[test]
fn header_and_parts_are_compared() {
    let bytes = [0b0000_0001u8];
    let raw: RawArray<'_, Int8> = RawArray {
        ptr: 1,
        oid: 20,
        len: 2,
        nulls: NullBitmap::new(&bytes, 2),
        data: &[],
    };
    let datums: Vec<Datum<'_, ()>> = words(&[5, 0]);
    assert!(raw.confirms(&Deconstructed { elements: 9, datums: &datums, nulls: &[false, true] }));
    assert!(!raw.confirms(&Deconstructed { elements: 9, datums: &datums, nulls: &[false, false] }));
    assert!(!raw.confirms(&Deconstructed { elements: 9, datums: &datums[..1], nulls: &[false] }));
    assert!(!raw.confirms(&Deconstructed { elements: 9, datums: &datums, nulls: &[false] }));
}

#[test]
fn slots_are_read_in_place() {
    let data = [Int4(10), Int4(-20), Int4(30)];
    let array = Array::deconstruct_from(0x1000, int4_raw(&data, None), INT4, None);
    assert_eq!(array.len(), 3);
    assert!(!array.is_empty());
    assert_eq!(array.get(0), Some(Some(Int4(10))));
    assert_eq!(array.get(1), Some(Some(Int4(-20))));
    assert_eq!(array.get(2), Some(Some(Int4(30))));
    assert!(!array.has(3));
    assert!(array.has(4));
    assert_eq!(array.get(4), None);
}

#[test]
fn null_slots_have_no_value() {
    let data = [Int4(10), Int4(30)];
    let bytes = [0b0000_0101u8];
    let raw = RawArray { len: 3, ..int4_raw(&data, NullBitmap::new(&bytes, 3)) };
    let array = Array::deconstruct_from(0x1000, raw, INT4, None);
    assert_eq!(array.get(0), Some(Some(Int4(10))));
    assert_eq!(array.get(1), Some(None));
    assert_eq!(array.get(2), Some(Some(Int4(30))));
    assert_eq!(array.get(3), None);
    assert_eq!(array.slice_denial(), Some(SliceDenial::NullDetected));
    assert_eq!(array.walk_denial(), Some(WalkDenial::ContainsNull));
}

#[test]
fn datums_are_converted_with_the_element_type() {
    let texts = ["a".to_string(), "b".to_string()];
    let datums: Vec<Datum<'_, String>> = vec![
        Datum { word: 1, referent: Some(&texts[0]) },
        Datum { word: 0, referent: None },
        Datum { word: 2, referent: Some(&texts[1]) },
    ];
    let bytes = [0b0000_0101u8];
    let raw = RawArray {
        ptr: 0x2000,
        oid: 25,
        len: 3,
        nulls: NullBitmap::new(&bytes, 3),
        data: &[],
    };
    let parts = Deconstructed { elements: 0x4000, datums: &datums, nulls: &[false, true, false] };
    assert!(raw.confirms(&parts));
    let array: Array<'_, Text> = Array::deconstruct_from(0x1000, raw, TEXT, Some(parts));
    assert_eq!(array.get(0), Some(Some(Text("a".to_string(), 25))));
    assert_eq!(array.get(1), Some(None));
    assert_eq!(array.get(2), Some(Some(Text("b".to_string(), 25))));
    assert_eq!(array.get(3), None);
    assert_eq!(array.into_array_type(), 0x2000);
}

#[test]
fn slice_holds_the_elements() {
    let data = [Int4(1), Int4(2), Int4(3)];
    let array = Array::deconstruct_from(0x1000, int4_raw(&data, None), INT4, None);
    assert_eq!(array.slice_denial(), None);
    assert!(array.slice_fits());
    assert_eq!(array.as_slice(), &data);
    assert_eq!(array.as_slice().len(), array.len());
    for (i, value) in array.as_slice().iter().enumerate() {
        assert_eq!(array.get(i), Some(Some(*value)));
    }
}

#[test]
fn slice_of_a_datum_array_comes_from_its_data() {
    let data = [Int8(7), Int8(8), Int8(0)];
    let raw = RawArray { ptr: 0x2000, oid: 20, len: 2, nulls: None, data: &data };
    let datums: Vec<Datum<'_, ()>> = words(&[7, 8]);
    let parts = Deconstructed { elements: 0x4000, datums: &datums, nulls: &[false, false] };
    let array = Array::deconstruct_from(0x1000, raw, INT8, Some(parts));
    assert_eq!(array.slice_denial(), None);
    assert!(array.slice_fits());
    assert_eq!(array.as_slice(), &data[..2]);
    for (i, value) in array.as_slice().iter().enumerate() {
        assert_eq!(array.get(i), Some(Some(*value)));
    }
    assert_eq!(array.get(1), Some(Some(Int8(8))));
}

#[test]
fn no_slice_where_the_layouts_differ() {
    let raw: RawArray<'_, Text> = RawArray { ptr: 0x2000, oid: 25, len: 0, nulls: None, data: &[] };
    let parts = Deconstructed { elements: 0x4000, datums: &[], nulls: &[] };
    let array = Array::deconstruct_from(0x1000, raw, TEXT, Some(parts));
    assert!(array.is_empty());
    assert_eq!(array.slice_denial(), Some(SliceDenial::NoSuchSlice));
    assert_eq!(array.walk_denial(), None);
}

#[test]
fn owned_allocations_are_released_in_order() {
    let raw: RawArray<'_, Int8> = RawArray { ptr: 0x2000, oid: 20, len: 0, nulls: None, data: &[] };
    let parts = Deconstructed { elements: 0x4000, datums: &[], nulls: &[] };
    let mut copied = Array::deconstruct_from(0x1000, raw, INT8, Some(parts));
    assert_eq!(copied.release(), vec![0x4000, 0x2000]);
    assert_eq!(copied.release(), Vec::<usize>::new());
    assert_eq!(copied.walk_denial(), Some(WalkDenial::ArrayIsNull));
    assert_eq!(copied.into_array_type(), 0);
    let mut in_place = Array::deconstruct_from(0x2000, raw, INT8, Some(parts));
    assert_eq!(in_place.release(), vec![0x4000]);
    let no_allocation = Deconstructed { elements: 0, ..parts };
    let mut none = Array::deconstruct_from(0x1000, raw, INT8, Some(no_allocation));
    assert_eq!(none.release(), Vec::<usize>::new());
}

#[test]
fn slots_own_nothing() {
    let data = [Int4(1)];
    let mut array = Array::deconstruct_from(0x1000, int4_raw(&data, None), INT4, None);
    assert_eq!(array.release(), Vec::<usize>::new());
    assert_eq!(array.into_array_type(), 0x2000);
}

#[test]
fn walk_reads_each_element_once() {
    let data = [Int4(1), Int4(2)];
    let bytes = [0b0000_0011u8];
    let raw = RawArray { len: 3, ..int4_raw(&data, NullBitmap::new(&bytes, 3)) };
    let array = Array::deconstruct_from(0x1000, raw, INT4, None);
    let mut iter = array.iter();
    assert!(iter.ready());
    assert_eq!(iter.next(), Some(Some(Int4(1))));
    assert_eq!(iter.next(), Some(Some(Int4(2))));
    assert_eq!(iter.next(), Some(None));
    assert_eq!(iter.next(), None);
    assert_eq!(iter.next(), None);
}

#[test]
fn walk_over_values() {
    let data = [Int4(1), Int4(2)];
    let array = Array::deconstruct_from(0x1000, int4_raw(&data, None), INT4, None);
    assert_eq!(array.walk_denial(), None);
    let mut iter = array.iter_deny_null();
    assert!(iter.ready());
    assert_eq!(iter.next(), Some(Int4(1)));
    let mut again = iter.elements();
    assert_eq!(again.next(), Some(Some(Int4(1))));
    assert_eq!(iter.next(), Some(Int4(2)));
    assert_eq!(iter.next(), None);
}

#[test]
fn full_bitmap_counts_as_no_null() {
    let data = [Int4(1), Int4(2)];
    let bytes = [0b0000_0011u8];
    let nulls = NullBitmap::new(&bytes, 2);
    let array = Array::deconstruct_from(0x1000, int4_raw(&data, nulls), INT4, None);
    assert_eq!(array.walk_denial(), None);
    assert_eq!(array.slice_denial(), None);
    assert_eq!(array.get(2), None);
}

#[test]
fn owning_walk_counts_and_indexes_from_the_start() {
    let data = [Int4(1), Int4(2), Int4(3)];
    let array = Array::deconstruct_from(0x1000, int4_raw(&data, None), INT4, None);
    let mut iter = array.into_iter();
    assert_eq!(iter.next(), Some(Some(Int4(1))));
    assert_eq!(iter.size_hint(), (0, Some(3)));
    assert_eq!(iter.nth(0), Some(Some(Int4(1))));
    assert_eq!(iter.nth(2), Some(Some(Int4(3))));
    assert_eq!(iter.next(), Some(Some(Int4(2))));
    assert_eq!(iter.release(), Vec::<usize>::new());
    assert_eq!(iter.count(), 3);
}

#[test]
fn array_datum_converts() {
    let data = [Int4(4), Int4(5)];
    let at = ArrayReferent { raw: int4_raw(&data, None), elem_layout: INT4, parts: None };
    let datum = Datum { word: 0x1000, referent: Some(&at) };
    assert!(stands_for_array(datum.word, false));
    let array: Option<Array<'_, Int4>> = Array::from_polymorphic_datum(datum, false, 1007);
    let array = array.unwrap();
    assert_eq!(array.get(1), Some(Some(Int4(5))));
    let variadic: Option<VariadicArray<'_, Int4>> =
        VariadicArray::from_polymorphic_datum(datum, false, 1007);
    let variadic = variadic.unwrap();
    assert_eq!(variadic.len(), 2);
    assert!(!variadic.is_empty());
    assert!(variadic.as_array().has(1));
    assert_eq!(variadic.get(1), Some(Some(Int4(5))));
    assert_eq!(variadic.as_array().slice_denial(), None);
    assert_eq!(variadic.as_slice(), &data);
    assert_eq!(variadic.iter().next(), Some(Some(Int4(4))));
    assert_eq!(variadic.as_array().walk_denial(), None);
    assert_eq!(variadic.iter_deny_null().next(), Some(Int4(4)));
    let mut variadic = variadic;
    assert_eq!(variadic.release(), Vec::<usize>::new());
    assert_eq!(variadic.into_array_type(), 0x2000);
    let variadic: Option<VariadicArray<'_, Int4>> =
        VariadicArray::from_polymorphic_datum(datum, false, 1007);
    assert_eq!(variadic.unwrap().into_iter().count(), 2);
    let values = <Vec<Int4> as FromDatum>::from_polymorphic_datum(datum, false, 1007);
    assert_eq!(values, Some(vec![Int4(4), Int4(5)]));
    let elements = <Vec<Option<Int4>> as FromDatum>::from_polymorphic_datum(datum, false, 1007);
    assert_eq!(elements, Some(vec![Some(Int4(4)), Some(Int4(5))]));
}

#[test]
fn elements_may_be_null_in_a_vector_of_options() {
    let data = [Int4(5)];
    let bytes = [0b0000_0010u8];
    let raw = RawArray { len: 2, ..int4_raw(&data, NullBitmap::new(&bytes, 2)) };
    let at = ArrayReferent { raw, elem_layout: INT4, parts: None };
    let datum = Datum { word: 0x1000, referent: Some(&at) };
    let elements = <Vec<Option<Int4>> as FromDatum>::from_polymorphic_datum(datum, false, 1007);
    assert_eq!(elements, Some(vec![None, Some(Int4(5))]));
}

#[test]
fn null_datum_gives_nothing() {
    let datum: Datum<'_, ArrayReferent<'_, Int4>> = Datum { word: 0x1000, referent: None };
    assert!(!stands_for_array(datum.word, true));
    assert!(<Array<'_, Int4>>::from_polymorphic_datum(datum, true, 0).is_none());
    assert!(<VariadicArray<'_, Int4>>::from_polymorphic_datum(datum, true, 0).is_none());
    assert!(<Vec<Int4> as FromDatum>::from_polymorphic_datum(datum, true, 0).is_none());
    assert!(<Vec<Option<Int4>> as FromDatum>::from_polymorphic_datum(datum, true, 0).is_none());
}

#[test]
fn null_address_gives_nothing() {
    let datum: Datum<'_, ArrayReferent<'_, Int4>> = Datum { word: 0, referent: None };
    assert!(datum.is_null());
    assert!(!stands_for_array(datum.word, false));
    assert!(<Array<'_, Int4>>::from_polymorphic_datum(datum, false, 0).is_none());
    assert!(<VariadicArray<'_, Int4>>::from_polymorphic_datum(datum, false, 0).is_none());
    assert!(<Vec<Option<Int4>> as FromDatum>::from_polymorphic_datum(datum, false, 0).is_none());
}

#[test]
fn vectors_leave_the_array_to_be_freed() {
    let raw: RawArray<'_, Int8> = RawArray { ptr: 0x2000, oid: 20, len: 1, nulls: None, data: &[] };
    let datums: Vec<Datum<'_, ()>> = words(&[6]);
    let parts = Deconstructed { elements: 0x4000, datums: &datums, nulls: &[false] };
    let at = ArrayReferent { raw, elem_layout: INT8, parts: Some(parts) };
    let datum = Datum { word: 0x1000, referent: Some(&at) };
    let values = <Vec<Int8> as FromDatum>::from_polymorphic_datum(datum, false, 1016);
    assert_eq!(values, Some(vec![Int8(6)]));
    assert_eq!(release_at(datum, false, 1016), vec![0x4000, 0x2000]);
    assert_eq!(release_at(datum, true, 1016), Vec::<usize>::new());
}

#[test]
fn elements_behind_a_null_have_the_slots_of_the_present_ones() {
    let data = [Int4(7), Int4(9)];
    let bytes = [0b0000_0110u8];
    let raw = RawArray { len: 3, ..int4_raw(&data, NullBitmap::new(&bytes, 3)) };
    let at = ArrayReferent { raw, elem_layout: INT4, parts: None };
    let datum = Datum { word: 0x1000, referent: Some(&at) };
    let array: Array<'_, Int4> = Array::from_polymorphic_datum(datum, false, 1007).unwrap();
    assert!(!array.slice_fits());
    for i in 0..3 {
        assert!(array.has(i));
    }
    assert_eq!(array.get(0), Some(None));
    assert_eq!(array.get(1), Some(Some(Int4(7))));
    assert_eq!(array.get(2), Some(Some(Int4(9))));
    assert_eq!(array.get(3), None);
    let mut iter = array.iter();
    assert_eq!(iter.next(), Some(None));
    assert_eq!(iter.next(), Some(Some(Int4(7))));
    assert!(iter.ready());
    assert_eq!(iter.next(), Some(Some(Int4(9))));
    assert_eq!(iter.next(), None);
    let mut owning = array.into_iter();
    assert_eq!(owning.nth(2), Some(Some(Int4(9))));
    assert_eq!(owning.next(), Some(None));
    let elements = <Vec<Option<Int4>> as FromDatum>::from_polymorphic_datum(datum, false, 1007);
    assert_eq!(elements, Some(vec![None, Some(Int4(7)), Some(Int4(9))]));
}

#[test]
fn walk_is_not_ready_where_the_data_end_early() {
    let data = [Int4(1)];
    let bytes = [0b0000_0101u8];
    let raw = RawArray { len: 3, ..int4_raw(&data, NullBitmap::new(&bytes, 3)) };
    let array = Array::deconstruct_from(0x1000, raw, INT4, None);
    assert!(array.has(0));
    assert!(array.has(1));
    assert!(!array.has(2));
    let mut iter = array.iter();
    assert_eq!(iter.next(), Some(Some(Int4(1))));
    assert!(iter.ready());
    assert_eq!(iter.next(), Some(None));
    assert!(!iter.ready());
    let owning = array.into_iter();
    assert!(owning.ready());
    assert!(!owning.has(2));
}

#[test]
fn typed_steps_tell_values_the_end_and_missing_values_apart() {
    let text = "a".to_string();
    let datums: Vec<Datum<'_, String>> =
        vec![Datum { word: 1, referent: Some(&text) }, Datum { word: 2, referent: None }];
    let raw = RawArray { ptr: 0x2000, oid: 25, len: 2, nulls: None, data: &[] };
    let parts = Deconstructed { elements: 0x4000, datums: &datums, nulls: &[false, false] };
    let array: Array<'_, Text> = Array::deconstruct_from(0x1000, raw, TEXT, Some(parts));
    let mut iter = array.iter_deny_null();
    assert_eq!(iter.step(), TypedStep::Value(Text("a".to_string(), 25)));
    assert_eq!(iter.step(), TypedStep::UnexpectedNull);
    assert_eq!(iter.step(), TypedStep::UnexpectedNull);
    let data = [Int4(3)];
    let slots = Array::deconstruct_from(0x1000, int4_raw(&data, None), INT4, None);
    let mut iter = slots.iter_deny_null();
    assert_eq!(iter.step(), TypedStep::Value(Int4(3)));
    assert_eq!(iter.step(), TypedStep::End);
    assert_eq!(iter.step(), TypedStep::End);
}

#[test]
fn vector_of_values_or_why_there_is_none() {
    let data = [Int4(4), Int4(5)];
    let full = ArrayReferent { raw: int4_raw(&data, None), elem_layout: INT4, parts: None };
    let datum = Datum { word: 0x1000, referent: Some(&full) };
    assert_eq!(vector_from_datum(datum, false, 1007), Ok(Some(vec![Int4(4), Int4(5)])));
    assert_eq!(vector_from_datum(datum, true, 1007), Ok(None));
    let none: Datum<'_, ArrayReferent<'_, Int4>> = Datum { word: 0, referent: None };
    assert_eq!(vector_from_datum(none, false, 1007), Err(VectorError::NoArray));
    let bytes = [0b0000_0101u8];
    let raw = RawArray { len: 3, ..int4_raw(&data, NullBitmap::new(&bytes, 3)) };
    let holed = ArrayReferent { raw, elem_layout: INT4, parts: None };
    let datum = Datum { word: 0x1000, referent: Some(&holed) };
    assert_eq!(vector_from_datum(datum, false, 1007), Err(VectorError::NullElement(1)));
}

impl IntoDatum for Int8 {
    fn into_datum(self) -> Option<usize> {
        Some(self.0 as usize)
    }
}

/// A number that may be missing.
struct Maybe(Option<i64>);

impl IntoDatum for Maybe {
    fn into_datum(self) -> Option<usize> {
        self.0.map(|number| number as usize)
    }
}

/// What a server that keeps every element would have been handed.
fn handed_over(mut builder: ArrayBuilder) -> (Vec<usize>, Vec<bool>) {
    let (mut words, mut nulls) = (Vec::new(), Vec::new());
    while let BuildStep::Accumulate { element, .. } = builder.step(1) {
        words.push(element.word);
        nulls.push(element.is_null);
    }
    (words, nulls)
}

#[test]
fn written_values_are_read_back() {
    let values = vec![Int8(3), Int8(-4), Int8(5)];
    let (from_vec, nulls) = handed_over(ArrayBuilder::from_vec(20, values.clone()));
    assert_eq!(handed_over(ArrayBuilder::from_slice(20, &values)), (from_vec.clone(), nulls.clone()));
    let datums: Vec<Datum<'_, ()>> = words(&from_vec);
    let raw = RawArray { ptr: 0x2000, oid: 20, len: 3, nulls: None, data: &[] };
    let parts = Deconstructed { elements: 0x4000, datums: &datums, nulls: &nulls };
    assert!(raw.confirms(&parts));
    let at = ArrayReferent { raw, elem_layout: INT8, parts: Some(parts) };
    let datum = Datum { word: 0x1000, referent: Some(&at) };
    let read = <Vec<Int8> as FromDatum>::from_polymorphic_datum(datum, false, 1016);
    assert_eq!(read, Some(values));
}

#[test]
fn written_nulls_are_read_back_in_place() {
    let values = vec![Maybe(Some(3)), Maybe(None), Maybe(Some(5))];
    let (handed, nulls) = handed_over(ArrayBuilder::from_vec(20, values));
    let datums: Vec<Datum<'_, ()>> = words(&handed);
    let bytes = [0b0000_0101u8];
    let raw = RawArray {
        ptr: 0x2000,
        oid: 20,
        len: 3,
        nulls: NullBitmap::new(&bytes, 3),
        data: &[],
    };
    let parts = Deconstructed { elements: 0x4000, datums: &datums, nulls: &nulls };
    assert!(raw.confirms(&parts));
    let at = ArrayReferent { raw, elem_layout: INT8, parts: Some(parts) };
    let datum = Datum { word: 0x1000, referent: Some(&at) };
    let read = <Vec<Option<Int8>> as FromDatum>::from_polymorphic_datum(datum, false, 1016);
    assert_eq!(read, Some(vec![Some(Int8(3)), None, Some(Int8(5))]));
}

/// A byte whose clones are not copies.
#[derive(Debug, PartialEq)]
struct Odd(u8);

impl Clone for Odd {
    fn clone(&self) -> Self {
        Odd(self.0 ^ 1)
    }
}

impl<'a> FromDatum<'a> for Odd {
    type Referent = ();

    fn read_slot(slot: &Self) -> Option<Self> {
        Some(Odd(slot.0))
    }

    fn from_polymorphic_datum(datum: Datum<'a, ()>, is_null: bool, _typoid: u32) -> Option<Self> {
        if is_null {
            None
        } else {
            Some(Odd(datum.word as u8))
        }
    }
}

#[test]
fn slots_are_copied_as_they_are() {
    let data = [Odd(4), Odd(6)];
    let layout = Layout { typlen: 1, typalign: 'c', pass: PassBy::Value };
    let raw = RawArray { ptr: 0x2000, oid: 18, len: 2, nulls: None, data: &data };
    let array = Array::deconstruct_from(0x1000, raw, layout, None);
    assert_eq!(array.get(0), Some(Some(Odd(4))));
    assert_eq!(array.get(1), Some(Some(Odd(6))));
}

#[test]
fn written_slots_are_read_back() {
    let values = vec![Int8(3), Int8(-4)];
    let (handed, _) = handed_over(ArrayBuilder::from_vec(23, values.clone()));
    let data: Vec<Int4> = handed.iter().map(|word| Int4(*word as i32)).collect();
    let at = ArrayReferent { raw: int4_raw(&data, None), elem_layout: INT4, parts: None };
    let datum = Datum { word: 0x1000, referent: Some(&at) };
    let read = <Vec<Int4> as FromDatum>::from_polymorphic_datum(datum, false, 1007);
    assert_eq!(read, Some(vec![Int4(3), Int4(-4)]));
}
