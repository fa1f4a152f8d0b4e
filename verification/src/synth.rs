//! The dispatch synthesizer: from the classified variants to the state
//! descriptor type and the two dispatch bodies.

use vstd::prelude::*;
use vstd::string::StringExecFns;
use crate::classify::{
    all_supported, classification, classified_list, classify, Classified, ClassifiedView,
    DeriveError, DeriveErrorView, Shape,
};
use crate::decl::{DeclKind, Declaration, DeclarationView};

verus! {

/// What a dispatch arm does with the value it matched.
#[derive(Clone, Copy, Debug, PartialEq, Eq, Structural)]
pub enum Action {
    /// Nothing: the variant carries no sub-element.
    Nothing,
    /// Hand the incoming event, unchanged, to the payload's event handler.
    ForwardEvent,
    /// Call the payload's draw operation.
    ForwardDraw,
}

/// One arm of a derived `match`: the variant whose values it matches, and
/// what it does with them.
#[derive(Clone, Debug, PartialEq, Eq)]
pub struct Arm {
    pub variant: String,
    pub action: Action,
}

/// The mathematical value of an [`Arm`].
pub struct ArmView {
    pub variant: Seq<char>,
    pub action: Action,
}

impl View for Arm {
    type V = ArmView;

    open spec fn view(&self) -> ArmView {
        ArmView { variant: self.variant@, action: self.action }
    }
}

/// The state descriptor: an enumeration with one payload-free variant for
/// each variant of the source.
#[derive(Clone, Debug, PartialEq, Eq)]
pub struct StateType {
    pub name: String,
    pub variants: Vec<String>,
}

/// The mathematical value of a [`StateType`].
pub struct StateTypeView {
    pub name: Seq<char>,
    pub variants: Seq<Seq<char>>,
}

impl View for StateType {
    type V = StateTypeView;

    open spec fn view(&self) -> StateTypeView {
        StateTypeView { name: self.name@, variants: self.variants@.map_values(|s: String| s@) }
    }
}

/// Everything that is derived from one declaration.
#[derive(Clone, Debug, PartialEq, Eq)]
pub struct Expansion {
    /// The name of the source type, for which the dispatch is implemented.
    pub source: String,
    pub state_type: StateType,
    pub event_arms: Vec<Arm>,
    pub render_arms: Vec<Arm>,
}

/// The mathematical value of an [`Expansion`].
pub struct ExpansionView {
    pub source: Seq<char>,
    pub state_type: StateTypeView,
    pub event_arms: Seq<ArmView>,
    pub render_arms: Seq<ArmView>,
}

impl View for Expansion {
    type V = ExpansionView;

    open spec fn view(&self) -> ExpansionView {
        ExpansionView {
            source: self.source@,
            state_type: self.state_type@,
            event_arms: self.event_arms@.map_values(|a: Arm| a@),
            render_arms: self.render_arms@.map_values(|a: Arm| a@),
        }
    }
}

/// The name of the state descriptor of the type called `source`.
pub open spec fn state_name(source: Seq<char>) -> Seq<char> {
    source + "State"@
}

/// The arm that handles an event for a variant.
pub open spec fn event_arm(c: ClassifiedView) -> ArmView
    recommends
        c.shape != Shape::Other,
{
    ArmView {
        variant: c.name,
        action: if c.shape == Shape::SinglePayload {
            Action::ForwardEvent
        } else {
            Action::Nothing
        },
    }
}

/// The arm that draws a variant.
pub open spec fn render_arm(c: ClassifiedView) -> ArmView
    recommends
        c.shape != Shape::Other,
{
    ArmView {
        variant: c.name,
        action: if c.shape == Shape::SinglePayload {
            Action::ForwardDraw
        } else {
            Action::Nothing
        },
    }
}

/// What is derived for the type called `source` with the given variants:
/// one state variant and one arm of each dispatch per source variant, in
/// the source's order.
pub open spec fn synthesized(source: Seq<char>, variants: Seq<ClassifiedView>) -> ExpansionView {
    ExpansionView {
        source,
        state_type: StateTypeView {
            name: state_name(source),
            variants: Seq::new(variants.len(), |i: int| variants[i].name),
        },
        event_arms: Seq::new(variants.len(), |i: int| event_arm(variants[i])),
        render_arms: Seq::new(variants.len(), |i: int| render_arm(variants[i])),
    }
}

/// What derivation yields for a declaration: the expansion of its
/// classified variants, or the classifier's error and nothing else.
pub open spec fn derivation(d: DeclarationView) -> Result<ExpansionView, DeriveErrorView> {
    match classification(d) {
        Ok(variants) => Ok(synthesized(d.name, variants)),
        Err(e) => Err(e),
    }
}

/// The mathematical value of what [`derive_menu_impl`] returns.
pub open spec fn derive_result_view(r: Result<Expansion, DeriveError>) -> Result<
    ExpansionView,
    DeriveErrorView,
> {
    match r {
        Ok(x) => Ok(x@),
        Err(e) => Err(e@),
    }
}

/// Derives the state descriptor and both dispatch bodies for the type
/// called `source`. The variants must have been accepted by the classifier.
pub fn synthesize(source: &str, variants: &Vec<Classified>) -> (x: Expansion)
    requires
        forall|i: int| 0 <= i < variants@.len() ==> (#[trigger] variants@[i]).shape != Shape::Other,
    ensures
        x@ == synthesized(source@, classified_list(variants@)),
{
    let mut states: Vec<String> = Vec::new();
    let mut event_arms: Vec<Arm> = Vec::new();
    let mut render_arms: Vec<Arm> = Vec::new();
    let ghost spec_variants = classified_list(variants@);
    let mut i: usize = 0;
    while i < variants.len()
        invariant
            0 <= i <= variants.len(),
            spec_variants == classified_list(variants@),
            states@.len() == i,
            event_arms@.len() == i,
            render_arms@.len() == i,
            forall|k: int| 0 <= k < variants@.len() ==> (#[trigger] variants@[k]).shape != Shape::Other,
            forall|k: int| 0 <= k < i ==> (#[trigger] states@[k])@ == spec_variants[k].name,
            forall|k: int| 0 <= k < i ==> (#[trigger] event_arms@[k])@ == event_arm(spec_variants[k]),
            forall|k: int| 0 <= k < i ==> (#[trigger] render_arms@[k])@ == render_arm(spec_variants[k]),
        decreases variants.len() - i,
    {
        let v = &variants[i];
        assert(spec_variants[i as int] == v@);
        states.push(v.name.clone());
        let (on_event, on_draw) = match v.shape {
            Shape::SinglePayload => (Action::ForwardEvent, Action::ForwardDraw),
            _ => (Action::Nothing, Action::Nothing),
        };
        event_arms.push(Arm { variant: v.name.clone(), action: on_event });
        render_arms.push(Arm { variant: v.name.clone(), action: on_draw });
        i += 1;
    }
    let mut name = String::from_str(source);
    name.append("State");
    let x = Expansion {
        source: String::from_str(source),
        state_type: StateType { name, variants: states },
        event_arms,
        render_arms,
    };
    proof {
        let want = synthesized(source@, spec_variants);
        assert(x@.state_type.variants =~= want.state_type.variants);
        assert(x@.event_arms =~= want.event_arms);
        assert(x@.render_arms =~= want.render_arms);
    }
    x
}

/// Derives everything for a declaration, or refuses the whole of it: the
/// declaration must be an enum whose variants each carry nothing or exactly
/// one unnamed value.
pub fn derive_menu_impl(input: &Declaration) -> (r: Result<Expansion, DeriveError>)
    ensures
        derive_result_view(r) == derivation(input@),
{
    match classify(input) {
        Ok(variants) => {
            assert forall|i: int| 0 <= i < variants@.len() implies (#[trigger] variants@[i]).shape
                != Shape::Other by {
                assert(classified_list(variants@)[i] == variants@[i]@);
            }
            Ok(synthesize(input.name.as_str(), &variants))
        },
        Err(e) => Err(e),
    }
}

/// The state descriptor of a supported union mirrors the source: its
/// variants are the names of the source's variants, as many and in the same
/// order, and it is named after the source with `State` appended.
pub proof fn state_type_mirrors_source(d: DeclarationView)
    requires
        d.kind == DeclKind::Enum,
        all_supported(d.variants),
    ensures
        derivation(d) matches Ok(x) && {
            &&& x.state_type.name == state_name(d.name)
            &&& x.state_type.variants == d.names()
            &&& x.state_type.variants.len() == d.variants.len()
        },
{
    let x = derivation(d)->Ok_0;
    assert(x.state_type.variants =~= d.names());
}

} // verus!
