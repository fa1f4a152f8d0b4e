//! Derivation engine for composite menu elements.
//!
//! A composite element is a tagged union whose variants are either empty or
//! wrap exactly one sub-element. From the declaration of such a union this
//! crate derives a state descriptor type that mirrors the variant tags, and
//! the two dispatch bodies that route "handle event" and "draw" to whichever
//! sub-element is active.

pub mod attrs;
pub mod classify;
pub mod decl;
pub mod dispatch;
pub mod element;
pub mod emit;
pub mod source;
pub mod synth;

pub use attrs::{
    lit_to_quote, menu_group, quote_literal, Attribute, FieldAttrs, InvalidIdent, Literal,
    MetaBody, MetaItem, NestedItem, ATTRIBUTE_GROUP,
};
pub use classify::{classify, classify_fields, Classified, DeriveError, Shape};
pub use decl::{DeclKind, Declaration, Fields, VariantDecl};
pub use dispatch::select_arm;
pub use element::{Element, Event, Menu};
pub use emit::{emit_arm, emit_dispatch, emit_expansion, emit_state_type};
pub use source::{expand, expand_source, read_declaration};
pub use synth::{derive_menu_impl, synthesize, Action, Arm, Expansion, StateType};
