//! The source declaration: what derivation reads of a type definition.

use vstd::prelude::*;

verus! {

/// The payload of one variant, by how its fields are written and how many
/// there are.
#[derive(Clone, Copy, Debug, PartialEq, Eq, Structural)]
pub enum Fields {
    /// No field list at all, as in `Idle`.
    Unit,
    /// A parenthesised list of this many unnamed fields, as in `Active(Sub)`.
    Unnamed(usize),
    /// A braced list of this many named fields, as in `Point { x: u8 }`.
    Named(usize),
}

impl Fields {
    /// The number of fields the variant carries.
    pub open spec fn arity(self) -> nat {
        match self {
            Fields::Unit => 0,
            Fields::Unnamed(n) => n as nat,
            Fields::Named(n) => n as nat,
        }
    }
}

/// Which kind of type a declaration defines.
#[derive(Clone, Copy, Debug, PartialEq, Eq, Structural)]
pub enum DeclKind {
    Struct,
    Enum,
    Union,
}

/// One named case of a tagged union.
#[derive(Clone, Debug, PartialEq, Eq)]
pub struct VariantDecl {
    pub name: String,
    pub fields: Fields,
}

/// The mathematical value of a [`VariantDecl`].
pub struct VariantDeclView {
    pub name: Seq<char>,
    pub fields: Fields,
}

impl View for VariantDecl {
    type V = VariantDeclView;

    open spec fn view(&self) -> VariantDeclView {
        VariantDeclView { name: self.name@, fields: self.fields }
    }
}

/// A type declaration: its name, its kind, and its variants in the order in
/// which they are written. The variants are read only where the kind is
/// `Enum`.
#[derive(Clone, Debug, PartialEq, Eq)]
pub struct Declaration {
    pub name: String,
    pub kind: DeclKind,
    pub variants: Vec<VariantDecl>,
}

/// The mathematical value of a [`Declaration`].
pub struct DeclarationView {
    pub name: Seq<char>,
    pub kind: DeclKind,
    pub variants: Seq<VariantDeclView>,
}

impl View for Declaration {
    type V = DeclarationView;

    open spec fn view(&self) -> DeclarationView {
        DeclarationView {
            name: self.name@,
            kind: self.kind,
            variants: self.variants@.map_values(|v: VariantDecl| v@),
        }
    }
}

impl DeclarationView {
    /// The variant names, in declaration order.
    pub open spec fn names(self) -> Seq<Seq<char>> {
        self.variants.map_values(|v: VariantDeclView| v.name)
    }

    /// No two variants share a name: each value of the union belongs to
    /// exactly one variant.
    pub open spec fn distinct_names(self) -> bool {
        forall|i: int, j: int|
            0 <= i < self.variants.len() && 0 <= j < self.variants.len() && i != j
                ==> self.variants[i].name != self.variants[j].name
    }
}

} // verus!
