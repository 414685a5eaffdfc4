//! Making an array of the server from Rust values.
//!
//! The server makes an array piece by piece. It hands out the address of a state, takes that
//! address back with each element, and gives another one in return; from the last one it makes
//! the array. The builder says what to ask of the server at each turn.

use crate::datum::IntoDatum;
use vstd::prelude::*;

verus! {

/// An element as the server takes it.
#[derive(Clone, Copy, Debug, PartialEq, Eq, Structural)]
pub struct Element {
    /// The word, zero for a NULL.
    pub word: usize,
    /// Whether the element is NULL.
    pub is_null: bool,
}

/// The element that stands for the outcome of a conversion.
pub open spec fn element_of(word: Option<usize>) -> Element {
    match word {
        Some(word) => Element { word, is_null: false },
        None => Element { word: 0, is_null: true },
    }
}

/// Whether the conversion of `value` may give `element`.
pub open spec fn becomes<T: IntoDatum>(value: T, element: Element) -> bool {
    exists|word: Option<usize>| #[trigger] value.produces(word) && element == element_of(word)
}

/// The arguments of the server's `initArrayResult`, but for the memory context.
#[derive(Clone, Copy, Debug, PartialEq, Eq, Structural)]
pub struct InitCall {
    /// The element type.
    pub element_type: u32,
    /// Whether the state gets a memory context of its own.
    pub subcontext: bool,
}

/// What to ask of the server next.
#[derive(Clone, Copy, Debug, PartialEq, Eq, Structural)]
pub enum BuildStep {
    /// To add an element: the arguments of `accumArrayResult`, but for the memory context. Its
    /// result is the state of the next turn.
    Accumulate { state: usize, element: Element, element_type: u32 },
    /// To make the array: the argument of `makeArrayResult`, but for the memory context. Its
    /// result is the array's datum.
    Make { state: usize },
    /// Nothing. There is no state, and no datum comes of it.
    GiveUp,
}

/// Says what to ask of the server in order to make an array.
pub struct ArrayBuilder {
    element_type: u32,
    elements: Vec<Element>,
    added: usize,
}

/// A builder, as contracts speak of it.
pub struct BuilderView {
    /// The element type.
    pub element_type: u32,
    /// The elements.
    pub elements: Seq<Element>,
    /// How many of them the server has been asked to add.
    pub added: nat,
}

impl View for ArrayBuilder {
    type V = BuilderView;

    closed spec fn view(&self) -> BuilderView {
        BuilderView {
            element_type: self.element_type,
            elements: self.elements@,
            added: self.added as nat,
        }
    }
}

impl BuilderView {
    /// What to ask of the server when `state` is the last state it gave.
    pub open spec fn step(self, state: usize) -> BuildStep {
        if self.added < self.elements.len() {
            BuildStep::Accumulate {
                state,
                element: self.elements[self.added as int],
                element_type: self.element_type,
            }
        } else if state == 0 {
            BuildStep::GiveUp
        } else {
            BuildStep::Make { state }
        }
    }

    /// The builder after a turn.
    pub open spec fn stepped(self) -> BuilderView {
        BuilderView {
            added: if self.added < self.elements.len() {
                self.added + 1
            } else {
                self.added
            },
            ..self
        }
    }

    /// The builder after `turns` turns.
    pub open spec fn after(self, turns: nat) -> BuilderView
        decreases turns,
    {
        if turns == 0 {
            self
        } else {
            self.after((turns - 1) as nat).stepped()
        }
    }

    /// Whether this is a builder for `values`, at its start.
    pub open spec fn starts<T: IntoDatum>(self, element_type: u32, values: Seq<T>) -> bool {
        &&& self.element_type == element_type
        &&& self.added == 0
        &&& self.elements.len() == values.len()
        &&& forall|i: int|
            0 <= i < values.len() ==> becomes(#[trigger] values[i], self.elements[i])
    }
}

/// Converts a value to an element.
fn convert<T: IntoDatum>(value: T) -> (element: Element)
    ensures
        becomes(value, element),
{
    let datum = value.into_datum();
    let is_null = datum.is_none();
    let element = Element { word: datum.unwrap_or(0), is_null };
    assert(value.produces(datum) && element == element_of(datum));
    element
}

impl ArrayBuilder {
    /// A builder for an array of `values`, whose type on the server is `element_type`.
    pub fn from_vec<T: IntoDatum>(element_type: u32, values: Vec<T>) -> (builder: ArrayBuilder)
        ensures
            builder@.starts(element_type, values@),
            builder@.added == 0,
            builder@.elements.len() == values@.len(),
            builder@.element_type == element_type,
    {
        let ghost all = values@;
        let mut elements: Vec<Element> = Vec::with_capacity(values.len());
        for value in iter: values
            invariant
                iter.seq() == all,
                elements@.len() == iter.index(),
                forall|i: int|
                    0 <= i < elements@.len() ==> becomes(#[trigger] all[i], elements@[i]),
        {
            elements.push(convert(value));
        }
        ArrayBuilder { element_type, elements, added: 0 }
    }

    /// A builder for an array of `values`, whose type on the server is `element_type`.
    pub fn from_slice<T: IntoDatum + Copy>(element_type: u32, values: &[T]) -> (builder:
        ArrayBuilder)
        ensures
            builder@.starts(element_type, values@),
            builder@.added == 0,
            builder@.elements.len() == values@.len(),
            builder@.element_type == element_type,
    {
        let mut elements: Vec<Element> = Vec::with_capacity(values.len());
        let mut i: usize = 0;
        while i < values.len()
            invariant
                i <= values@.len(),
                elements@.len() == i,
                forall|j: int| 0 <= j < i ==> becomes(#[trigger] values@[j], elements@[j]),
            decreases values@.len() - i,
        {
            elements.push(convert(values[i]));
            i += 1;
        }
        ArrayBuilder { element_type, elements, added: 0 }
    }

    /// The first thing to ask of the server: a state for an array of the element type, in the
    /// memory context at hand.
    pub fn init(&self) -> (call: InitCall)
        ensures
            call == (InitCall { element_type: self@.element_type, subcontext: false }),
    {
        InitCall { element_type: self.element_type, subcontext: false }
    }

    /// What to ask of the server next, where `state` is the address of the state that it gave
    /// last.
    pub fn step(&mut self, state: usize) -> (step: BuildStep)
        ensures
            step == old(self)@.step(state),
            final(self)@ == old(self)@.stepped(),
    {
        if self.added < self.elements.len() {
            let element = self.elements[self.added];
            self.added += 1;
            BuildStep::Accumulate { state, element, element_type: self.element_type }
        } else if state == 0 {
            BuildStep::GiveUp
        } else {
            BuildStep::Make { state }
        }
    }
}

/// Whether an array type takes datums of type `other`: `own` is the array type's own
/// identifier and `of_element` the one that the catalog gives for arrays of its elements.
pub fn is_compatible_with(own: u32, of_element: u32, other: u32) -> (compatible: bool)
    ensures
        compatible == (own == other || other == of_element),
{
    own == other || other == of_element
}

/// Whatever states the server gives, the builder asks it to add each element once, in order,
/// each with the state given last, and then, where the last state is one, to make the array.
pub proof fn builder_adds_each_element_in_order(builder: BuilderView, states: Seq<usize>)
    requires
        builder.added == 0,
        states.len() == builder.elements.len() + 1,
    ensures
        forall|i: int|
            0 <= i < builder.elements.len() ==> (#[trigger] builder.after(i as nat)).step(states[i])
                == (BuildStep::Accumulate {
                state: states[i],
                element: builder.elements[i],
                element_type: builder.element_type,
            }),
        builder.after(builder.elements.len()).step(states.last()) == if states.last() == 0 {
            BuildStep::GiveUp
        } else {
            BuildStep::Make { state: states.last() }
        },
{
    assert forall|i: int| 0 <= i < builder.elements.len() implies (#[trigger] builder.after(
        i as nat,
    )).step(states[i]) == (BuildStep::Accumulate {
        state: states[i],
        element: builder.elements[i],
        element_type: builder.element_type,
    }) by {
        lemma_after(builder, i as nat);
    }
    lemma_after(builder, builder.elements.len());
}

proof fn lemma_after(builder: BuilderView, turns: nat)
    requires
        builder.added == 0,
        turns <= builder.elements.len(),
    ensures
        builder.after(turns) == (BuilderView { added: turns, ..builder }),
    decreases turns,
{
    if turns > 0 {
        lemma_after(builder, (turns - 1) as nat);
    }
}

} // verus!
