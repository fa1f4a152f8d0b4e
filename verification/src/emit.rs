//! The emitted source text of an expansion, character for character.

use vstd::prelude::*;
use vstd::string::StringExecFns;
use crate::classify::DeriveError;
use crate::decl::Declaration;
use crate::synth::{
    derivation, derive_result_view, Action, Arm, ArmView, Expansion, ExpansionView, StateType,
    StateTypeView,
};

verus! {

/// All the lines, one after the other.
pub open spec fn lines(items: Seq<Seq<char>>) -> Seq<char>
    decreases items.len(),
{
    if items.len() == 0 {
        Seq::empty()
    } else {
        lines(items.drop_last()) + items.last()
    }
}

/// The line that declares one variant of the state descriptor.
pub open spec fn state_variant_line(name: Seq<char>) -> Seq<char> {
    "    "@ + name + ",\n"@
}

/// An arm as it is written in a `match`: the pattern, the arrow, the action.
/// An arm that does nothing takes its variant by `{ .. }`, which matches the
/// variant whether it is written without a field list, with `()` or with
/// `{}`.
pub open spec fn arm_text(arm: ArmView) -> Seq<char> {
    "Self::"@ + arm.variant + match arm.action {
        Action::Nothing => " { .. } => ()"@,
        Action::ForwardEvent => "(d) => d.evt(evt)"@,
        Action::ForwardDraw => "(d) => d.draw()"@,
    }
}

/// The line that holds one arm.
pub open spec fn arm_line(arm: ArmView) -> Seq<char> {
    "            "@ + arm_text(arm) + ",\n"@
}

/// The declaration of the state descriptor type.
pub open spec fn state_type_text(s: StateTypeView) -> Seq<char> {
    "#[derive(Copy, Clone, Debug, PartialEq)]\nenum "@ + s.name + " {\n"@ + lines(
        Seq::new(s.variants.len(), |i: int| state_variant_line(s.variants[i])),
    ) + "}\n"@
}

/// A dispatch body: a `match` on the value with the given arms, in order.
pub open spec fn dispatch_text(arms: Seq<ArmView>) -> Seq<char> {
    "        match self {\n"@ + lines(Seq::new(arms.len(), |i: int| arm_line(arms[i])))
        + "        }\n"@
}

/// The whole emitted text: the state descriptor, then the implementation of
/// `Menu` with that descriptor as its state, then the implementation of
/// `Element` with the two dispatch bodies.
pub open spec fn expansion_text(x: ExpansionView) -> Seq<char> {
    state_type_text(x.state_type) + "\nimpl ::nanos_ui::Menu for "@ + x.source
        + " {\n    type State = "@ + x.state_type.name
        + ";\n}\n\nimpl ::nanos_ui::Element for "@ + x.source
        + " {\n    fn evt(&mut self, evt: ::nanos_ui::Event) {\n"@ + dispatch_text(x.event_arms)
        + "    }\n\n    fn draw(&self) {\n"@ + dispatch_text(x.render_arms) + "    }\n}\n"@
}

/// Writes one arm as it stands in a `match`.
pub fn emit_arm(arm: &Arm) -> (text: String)
    ensures
        text@ == arm_text(arm@),
{
    let mut text = String::from_str("Self::");
    text.append(arm.variant.as_str());
    match arm.action {
        Action::Nothing => text.append(" { .. } => ()"),
        Action::ForwardEvent => text.append("(d) => d.evt(evt)"),
        Action::ForwardDraw => text.append("(d) => d.draw()"),
    }
    text
}

/// Writes the declaration of the state descriptor type.
pub fn emit_state_type(s: &StateType) -> (text: String)
    ensures
        text@ == state_type_text(s@),
{
    let ghost rows = Seq::new(s@.variants.len(), |i: int| state_variant_line(s@.variants[i]));
    let mut body = String::new();
    let mut i: usize = 0;
    while i < s.variants.len()
        invariant
            0 <= i <= s.variants.len(),
            rows == Seq::new(s@.variants.len(), |i: int| state_variant_line(s@.variants[i])),
            body@ == lines(rows.take(i as int)),
        decreases s.variants.len() - i,
    {
        let ghost before = body@;
        body.append("    ");
        body.append(s.variants[i].as_str());
        body.append(",\n");
        proof {
            assert(body@ == before + rows[i as int]);
            assert(rows.take(i + 1).drop_last() == rows.take(i as int));
        }
        i += 1;
    }
    proof {
        assert(rows.take(i as int) == rows);
    }
    let mut text = String::from_str("#[derive(Copy, Clone, Debug, PartialEq)]\nenum ");
    text.append(s.name.as_str());
    text.append(" {\n");
    text.append(body.as_str());
    text.append("}\n");
    text
}

/// Writes a dispatch body: the `match` with one line for each arm.
pub fn emit_dispatch(arms: &Vec<Arm>) -> (text: String)
    ensures
        text@ == dispatch_text(arms@.map_values(|a: Arm| a@)),
{
    let ghost arm_views = arms@.map_values(|a: Arm| a@);
    let ghost rows = Seq::new(arm_views.len(), |i: int| arm_line(arm_views[i]));
    let mut body = String::new();
    let mut i: usize = 0;
    while i < arms.len()
        invariant
            0 <= i <= arms.len(),
            arm_views == arms@.map_values(|a: Arm| a@),
            rows == Seq::new(arm_views.len(), |i: int| arm_line(arm_views[i])),
            body@ == lines(rows.take(i as int)),
        decreases arms.len() - i,
    {
        let ghost before = body@;
        let arm = emit_arm(&arms[i]);
        let mut row = String::from_str("            ");
        row.append(arm.as_str());
        row.append(",\n");
        body.append(row.as_str());
        proof {
            assert(body@ == before + rows[i as int]);
            assert(rows.take(i + 1).drop_last() == rows.take(i as int));
        }
        i += 1;
    }
    proof {
        assert(rows.take(i as int) == rows);
    }
    let mut text = String::from_str("        match self {\n");
    text.append(body.as_str());
    text.append("        }\n");
    text
}

/// Writes the whole expansion.
pub fn emit_expansion(x: &Expansion) -> (text: String)
    ensures
        text@ == expansion_text(x@),
{
    let mut text = emit_state_type(&x.state_type);
    text.append("\nimpl ::nanos_ui::Menu for ");
    text.append(x.source.as_str());
    text.append(" {\n    type State = ");
    text.append(x.state_type.name.as_str());
    text.append(";\n}\n\nimpl ::nanos_ui::Element for ");
    text.append(x.source.as_str());
    text.append(" {\n    fn evt(&mut self, evt: ::nanos_ui::Event) {\n");
    text.append(emit_dispatch(&x.event_arms).as_str());
    text.append("    }\n\n    fn draw(&self) {\n");
    text.append(emit_dispatch(&x.render_arms).as_str());
    text.append("    }\n}\n");
    text
}

/// Derivation is repeatable: two runs on declarations of the same value
/// agree on whether anything is derived, on the error where nothing is, and
/// on every character of the emitted text where something is.
pub proof fn generation_is_repeatable(
    once: Declaration,
    again: Declaration,
    first: Result<Expansion, DeriveError>,
    second: Result<Expansion, DeriveError>,
)
    requires
        once@ == again@,
        derive_result_view(first) == derivation(once@),
        derive_result_view(second) == derivation(again@),
    ensures
        derive_result_view(first) == derive_result_view(second),
        first matches Ok(x) ==> second matches Ok(y) && expansion_text(x@) == expansion_text(y@),
{
}

} // verus!
