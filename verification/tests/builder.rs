use pgx_array::builder::{is_compatible_with, ArrayBuilder, BuildStep, Element, InitCall};
use pgx_array::datum::IntoDatum;

#[derive(Clone, Copy)]
struct Odd(usize);

impl IntoDatum for Odd {
    fn into_datum(self) -> Option<usize> {
        if self.0 % 2 == 1 {
            Some(self.0)
        } else {
            None
        }
    }
}

fn element(word: usize, is_null: bool) -> Element {
    Element { word, is_null }
}

#[test]
fn elements_are_added_in_order_and_the_array_is_made() {
    let mut builder = ArrayBuilder::from_vec(20, vec![Odd(7), Odd(8), Odd(9)]);
    assert_eq!(builder.init(), InitCall { element_type: 20, subcontext: false });
    assert_eq!(
        builder.step(100),
        BuildStep::Accumulate { state: 100, element: element(7, false), element_type: 20 }
    );
    assert_eq!(
        builder.step(101),
        BuildStep::Accumulate { state: 101, element: element(0, true), element_type: 20 }
    );
    assert_eq!(
        builder.step(102),
        BuildStep::Accumulate { state: 102, element: element(9, false), element_type: 20 }
    );
    assert_eq!(builder.step(103), BuildStep::Make { state: 103 });
}

#[test]
fn slices_build_like_vectors() {
    let values = [Odd(1), Odd(2)];
    let mut builder = ArrayBuilder::from_slice(21, &values);
    assert_eq!(builder.init(), InitCall { element_type: 21, subcontext: false });
    assert_eq!(
        builder.step(5),
        BuildStep::Accumulate { state: 5, element: element(1, false), element_type: 21 }
    );
    assert_eq!(
        builder.step(5),
        BuildStep::Accumulate { state: 5, element: element(0, true), element_type: 21 }
    );
    assert_eq!(builder.step(5), BuildStep::Make { state: 5 });
}

#[test]
fn no_state_makes_no_array() {
    let mut builder = ArrayBuilder::from_vec(20, Vec::<Odd>::new());
    assert_eq!(builder.step(0), BuildStep::GiveUp);
    let mut builder = ArrayBuilder::from_vec(20, Vec::<Odd>::new());
    assert_eq!(builder.step(3), BuildStep::Make { state: 3 });
}

#[test]
fn array_type_is_compatible_with_itself_and_the_catalog() {
    assert!(is_compatible_with(1007, 1007, 1007));
    assert!(is_compatible_with(1, 2, 1));
    assert!(is_compatible_with(1, 2, 2));
    assert!(!is_compatible_with(1, 2, 3));
}
