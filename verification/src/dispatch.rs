//! What a derived dispatch body does when it runs: which arm takes a value,
//! and which calls on sub-elements follow.

use vstd::prelude::*;
use crate::classify::{all_supported, shape_of, Shape};
use crate::decl::{DeclKind, DeclarationView};
use crate::element::Event;
use crate::synth::{derivation, Action, Arm, ArmView};

verus! {

/// A value of the source type: the variant it was built from, and the
/// sub-element it wraps, if any. Sub-elements are told apart by a number.
pub struct Value {
    pub variant: Seq<char>,
    pub payload: Option<int>,
}

/// A call on a sub-element.
pub enum Call {
    /// The event handler of `target`, with `event` as its argument.
    Evt { target: int, event: Event },
    /// The draw operation of `target`.
    Draw { target: int },
}

/// The arm's pattern matches values of the variant called `variant`.
pub open spec fn arm_matches(arm: ArmView, variant: Seq<char>) -> bool {
    arm.variant == variant
}

/// Arm `i` takes the values of `variant`: it matches, and no arm before it
/// does.
pub open spec fn selects(arms: Seq<ArmView>, variant: Seq<char>, i: int) -> bool {
    &&& 0 <= i < arms.len()
    &&& arm_matches(arms[i], variant)
    &&& forall|j: int| 0 <= j < i ==> !arm_matches(#[trigger] arms[j], variant)
}

/// The calls that an arm makes once it has taken a value with the given
/// payload, while `event` is the incoming event.
pub open spec fn performed(arm: ArmView, payload: Option<int>, event: Event) -> Seq<Call> {
    match (arm.action, payload) {
        (Action::ForwardEvent, Some(target)) => seq![Call::Evt { target, event }],
        (Action::ForwardDraw, Some(target)) => seq![Call::Draw { target }],
        _ => Seq::empty(),
    }
}

/// The calls that a dispatch body with the given arms makes on `value`.
pub open spec fn dispatched(arms: Seq<ArmView>, value: Value, event: Event) -> Seq<Call> {
    if exists|i: int| selects(arms, value.variant, i) {
        performed(arms[choose|i: int| selects(arms, value.variant, i)], value.payload, event)
    } else {
        Seq::empty()
    }
}

/// Finds the arm that takes the values of `variant`: the first one that
/// matches, or none where no arm does.
pub fn select_arm(arms: &Vec<Arm>, variant: &String) -> (r: Option<usize>)
    ensures
        match r {
            Some(i) => selects(arms@.map_values(|a: Arm| a@), variant@, i as int),
            None => forall|i: int|
                0 <= i < arms@.len() ==> !arm_matches((#[trigger] arms@[i])@, variant@),
        },
{
    let ghost views = arms@.map_values(|a: Arm| a@);
    let mut i: usize = 0;
    while i < arms.len()
        invariant
            0 <= i <= arms.len(),
            views == arms@.map_values(|a: Arm| a@),
            forall|j: int| 0 <= j < i ==> !arm_matches(#[trigger] views[j], variant@),
        decreases arms.len() - i,
    {
        if arms[i].variant == *variant {
            assert(arm_matches(views[i as int], variant@));
            return Some(i);
        }
        i += 1;
    }
    assert forall|k: int| 0 <= k < arms@.len() implies !arm_matches(
        (#[trigger] arms@[k])@,
        variant@,
    ) by {
        assert(views[k] == arms@[k]@);
    }
    None
}

/// Both derived dispatch bodies are exhaustive and free of overlap: where
/// the variants of a supported union have distinct names, the arm at each
/// position matches the variant at that position and no other.
pub proof fn dispatch_is_exhaustive(d: DeclarationView)
    requires
        d.kind == DeclKind::Enum,
        all_supported(d.variants),
        d.distinct_names(),
    ensures
        derivation(d) matches Ok(x) && {
            &&& x.event_arms.len() == d.variants.len()
            &&& x.render_arms.len() == d.variants.len()
            &&& forall|i: int, j: int|
                0 <= i < d.variants.len() && 0 <= j < d.variants.len() ==> (#[trigger] arm_matches(
                    x.event_arms[i],
                    d.variants[j].name,
                ) <==> i == j)
            &&& forall|i: int, j: int|
                0 <= i < d.variants.len() && 0 <= j < d.variants.len() ==> (#[trigger] arm_matches(
                    x.render_arms[i],
                    d.variants[j].name,
                ) <==> i == j)
        },
{
}

/// In a supported union with distinct variant names, the arm that takes the
/// values of the variant at position `j` is the arm at position `j`, in
/// both dispatch bodies.
pub proof fn own_arm_is_selected(d: DeclarationView, j: int)
    requires
        d.kind == DeclKind::Enum,
        all_supported(d.variants),
        d.distinct_names(),
        0 <= j < d.variants.len(),
    ensures
        derivation(d) matches Ok(x) && {
            &&& forall|i: int| selects(x.event_arms, d.variants[j].name, i) <==> i == j
            &&& forall|i: int| selects(x.render_arms, d.variants[j].name, i) <==> i == j
        },
{
    dispatch_is_exhaustive(d);
}

/// Dispatching an event to a value built from a variant that wraps the
/// sub-element `target` calls the event handler of `target` once, with the
/// same event, and calls nothing else. Drawing such a value calls the draw
/// operation of `target` once and nothing else.
pub proof fn dispatch_reaches_the_payload_once(
    d: DeclarationView,
    j: int,
    target: int,
    event: Event,
)
    requires
        d.kind == DeclKind::Enum,
        all_supported(d.variants),
        d.distinct_names(),
        0 <= j < d.variants.len(),
        shape_of(d.variants[j].fields) == Shape::SinglePayload,
    ensures
        derivation(d) matches Ok(x) && {
            let value = Value { variant: d.variants[j].name, payload: Some(target) };
            &&& dispatched(x.event_arms, value, event) == seq![Call::Evt { target, event }]
            &&& dispatched(x.render_arms, value, event) == seq![Call::Draw { target }]
        },
{
    own_arm_is_selected(d, j);
    let x = derivation(d)->Ok_0;
    let value = Value { variant: d.variants[j].name, payload: Some(target) };
    assert(selects(x.event_arms, value.variant, j));
    assert(selects(x.render_arms, value.variant, j));
    assert(performed(x.event_arms[j], value.payload, event) == seq![Call::Evt { target, event }]);
    assert(performed(x.render_arms[j], value.payload, event) == seq![Call::Draw { target }]);
}

/// A value built from a variant that carries nothing is taken by an arm
/// that does nothing: dispatching an event to it calls nothing, and so does
/// drawing it, whatever the value is taken to hold.
pub proof fn dispatch_on_empty_variant_is_silent(
    d: DeclarationView,
    j: int,
    payload: Option<int>,
    event: Event,
)
    requires
        d.kind == DeclKind::Enum,
        all_supported(d.variants),
        d.distinct_names(),
        0 <= j < d.variants.len(),
        shape_of(d.variants[j].fields) == Shape::Empty,
    ensures
        derivation(d) matches Ok(x) && {
            let value = Value { variant: d.variants[j].name, payload };
            &&& x.event_arms[j].action == Action::Nothing
            &&& x.render_arms[j].action == Action::Nothing
            &&& dispatched(x.event_arms, value, event) == Seq::<Call>::empty()
            &&& dispatched(x.render_arms, value, event) == Seq::<Call>::empty()
        },
{
    own_arm_is_selected(d, j);
    let x = derivation(d)->Ok_0;
    assert(selects(x.event_arms, d.variants[j].name, j));
    assert(selects(x.render_arms, d.variants[j].name, j));
}

} // verus!
