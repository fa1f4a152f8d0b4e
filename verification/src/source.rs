//! Declarations read from source text with `syn`, and derivation from text
//! to text.

use vstd::prelude::*;
use crate::classify::{DeriveError, DeriveErrorView};
use crate::decl::{DeclKind, Declaration, DeclarationView, Fields, VariantDecl};
use crate::emit::{emit_expansion, expansion_text};
use crate::synth::{derivation, derive_menu_impl};

verus! {

/// `syn::DeriveInput`, a parsed type declaration. Nothing inside it is
/// visible here: it is read through the functions below.
#[verifier::external_type_specification]
#[verifier::external_body]
pub struct ExDeriveInput(syn::DeriveInput);

/// `syn::Error`, why a text does not parse. It is only ever dropped.
#[verifier::external_type_specification]
#[verifier::external_body]
pub struct ExSynError(syn::Error);

/// What a parsed input declares: the name of the type, its kind, and, for
/// an enum, its variants in the order in which they are written, each with
/// its name and the form and number of its fields. A struct or a union has
/// no variants.
pub uninterp spec fn input_declaration(input: syn::DeriveInput) -> DeclarationView;

/// `syn::parse_str::<syn::DeriveInput>`. Nothing is claimed of the result:
/// which texts are read as a declaration, and as which, is for the lexer
/// that the running process uses.
#[verifier::external_body]
fn parse_input(text: &str) -> (r: Result<syn::DeriveInput, syn::Error>) {
    syn::parse_str::<syn::DeriveInput>(text)
}

/// The field `ident` of a `syn::DeriveInput`, as text. Trusted: it is the
/// declared name.
#[verifier::external_body]
fn input_name(input: &syn::DeriveInput) -> (name: String)
    ensures
        name@ == input_declaration(*input).name,
{
    input.ident.to_string()
}

/// The variant of the field `data` of a `syn::DeriveInput`. Trusted: it is
/// the declared kind.
#[verifier::external_body]
fn input_kind(input: &syn::DeriveInput) -> (kind: DeclKind)
    ensures
        kind == input_declaration(*input).kind,
{
    match &input.data {
        syn::Data::Struct(_) => DeclKind::Struct,
        syn::Data::Enum(_) => DeclKind::Enum,
        syn::Data::Union(_) => DeclKind::Union,
    }
}

/// `Punctuated::len` of the variants of an enum's `syn::DataEnum`; zero for
/// a struct or a union. Trusted: it is the number of declared variants.
#[verifier::external_body]
fn variant_count(input: &syn::DeriveInput) -> (n: usize)
    ensures
        n == input_declaration(*input).variants.len(),
{
    match &input.data {
        syn::Data::Enum(e) => e.variants.len(),
        _ => 0,
    }
}

/// The `syn::Variant` at position `i` of an enum's variants: its `ident` as
/// text, and which `syn::Fields` it has with the `Punctuated::len` of the
/// field list. Trusted: it is the declared variant at that position, and
/// there is none from the number of variants on.
#[verifier::external_body]
fn variant_at(input: &syn::DeriveInput, i: usize) -> (r: Option<VariantDecl>)
    ensures
        match r {
            Some(v) => i < input_declaration(*input).variants.len() && v@ == input_declaration(
                *input,
            ).variants[i as int],
            None => i >= input_declaration(*input).variants.len(),
        },
{
    let variant = match &input.data {
        syn::Data::Enum(e) => e.variants.iter().nth(i)?,
        _ => return None,
    };
    let fields = match &variant.fields {
        syn::Fields::Unit => Fields::Unit,
        syn::Fields::Unnamed(u) => Fields::Unnamed(u.unnamed.len()),
        syn::Fields::Named(n) => Fields::Named(n.named.len()),
    };
    Some(VariantDecl { name: variant.ident.to_string(), fields })
}

/// Copies out of a parsed input what derivation reads of it.
pub fn read_declaration(input: &syn::DeriveInput) -> (d: Declaration)
    ensures
        d@ == input_declaration(*input),
{
    let count = variant_count(input);
    let mut variants: Vec<VariantDecl> = Vec::new();
    let mut i: usize = 0;
    while i < count
        invariant
            0 <= i <= count,
            count == input_declaration(*input).variants.len(),
            variants@.len() == i,
            forall|k: int|
                0 <= k < i ==> (#[trigger] variants@[k])@ == input_declaration(*input).variants[k],
        decreases count - i,
    {
        match variant_at(input, i) {
            Some(v) => variants.push(v),
            None => {
                assert(false);
            },
        }
        i += 1;
    }
    let d = Declaration { name: input_name(input), kind: input_kind(input), variants };
    assert(d@.variants =~= input_declaration(*input).variants);
    d
}

/// The source text that is derived from a declaration: the emitted text of
/// its expansion, or why there is none.
pub open spec fn expansion_of(d: DeclarationView) -> Result<Seq<char>, DeriveErrorView> {
    match derivation(d) {
        Ok(x) => Ok(expansion_text(x)),
        Err(e) => Err(e),
    }
}

/// The mathematical value of what [`expand`] and [`expand_source`] return.
pub open spec fn expand_result_view(r: Result<String, DeriveError>) -> Result<
    Seq<char>,
    DeriveErrorView,
> {
    match r {
        Ok(text) => Ok(text@),
        Err(e) => Err(e@),
    }
}

/// Derives everything for a declaration and writes it out as source text.
pub fn expand(input: &Declaration) -> (r: Result<String, DeriveError>)
    ensures
        expand_result_view(r) == expansion_of(input@),
{
    match derive_menu_impl(input) {
        Ok(x) => Ok(emit_expansion(&x)),
        Err(e) => Err(e),
    }
}

/// Reads a type declaration in `text` and derives from it, text to text.
/// Which declaration is read in a text, if any, is not fixed here: the text
/// is refused as a syntax error, or the result is what [`expand`] gives for
/// some declaration, the one that [`read_declaration`] copies out of what
/// was read.
pub fn expand_source(text: &str) -> (r: Result<String, DeriveError>)
    ensures
        expand_result_view(r) == Err::<Seq<char>, DeriveErrorView>(DeriveErrorView::Syntax)
            || exists|d: DeclarationView| expand_result_view(r) == #[trigger] expansion_of(d),
{
    match parse_input(text) {
        Ok(input) => {
            let d = read_declaration(&input);
            expand(&d)
        },
        Err(_) => Err(DeriveError::Syntax),
    }
}

} // verus!
