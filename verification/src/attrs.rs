//! Per-field configuration attributes.
//!
//! A field may carry an attribute group named `menu`, meant to hold a
//! display label. The group is found and its literals are converted, but no
//! label is taken from them yet: the descriptor always comes out without one.

use vstd::prelude::*;
use vstd::string::StringExecFns;

verus! {

/// The name of the attribute group that is read.
pub const ATTRIBUTE_GROUP: &'static str = "menu";

/// A literal on the right of a name in an attribute.
#[derive(Clone, Debug, PartialEq, Eq)]
pub enum Literal {
    /// An integer literal, as it is written.
    Int(String),
    /// A string literal, by the value it denotes.
    Str(String),
    /// A literal that is kept as it is written because it was not understood.
    Verbatim(String),
    /// A literal of any other kind.
    Other,
}

/// The mathematical value of a [`Literal`].
pub enum LiteralView {
    Int(Seq<char>),
    Str(Seq<char>),
    Verbatim(Seq<char>),
    Other,
}

impl View for Literal {
    type V = LiteralView;

    open spec fn view(&self) -> LiteralView {
        match self {
            Literal::Int(text) => LiteralView::Int(text@),
            Literal::Str(value) => LiteralView::Str(value@),
            Literal::Verbatim(text) => LiteralView::Verbatim(text@),
            Literal::Other => LiteralView::Other,
        }
    }
}

/// One entry of an attribute's argument list.
#[derive(Clone, Debug, PartialEq, Eq)]
pub enum NestedItem {
    /// A name with a literal, as in `label = "Back"`, by its literal.
    NameValue(Literal),
    /// Any other entry.
    Other,
}

/// What stands behind the path of an attribute.
#[derive(Clone, Debug, PartialEq, Eq)]
pub enum MetaBody {
    /// Nothing, as in `#[menu]`.
    Path,
    /// An argument list, as in `#[menu(label = "Back")]`.
    List(Vec<NestedItem>),
    /// A literal, as in `#[menu = "Back"]`.
    NameValue,
}

/// An attribute that has the structure of a path with a body.
#[derive(Clone, Debug, PartialEq, Eq)]
pub struct MetaItem {
    /// The path, where it is a single identifier.
    pub path: Option<String>,
    pub body: MetaBody,
}

/// An attribute on a field. `meta` is absent where the attribute does not
/// have the structure of a path with a body.
#[derive(Clone, Debug, PartialEq, Eq)]
pub struct Attribute {
    pub meta: Option<MetaItem>,
}

/// A string literal in whose value no identifier was read.
#[derive(Clone, Debug, PartialEq, Eq)]
pub struct InvalidIdent {
    pub value: String,
}

/// What is configured for one field.
#[derive(Clone, Copy, Debug, PartialEq, Eq)]
pub struct FieldAttrs {
    pub label: Option<&'static str>,
}

/// `darling::Error`, why a value was not accepted. It is only ever dropped.
#[verifier::external_type_specification]
#[verifier::external_body]
pub struct ExDarlingError(darling::Error);

/// `darling::FromMeta::from_string` for `syn::Ident`, which parses the text
/// with `syn::parse_str`, and the identifier that was read, as text. Nothing
/// is claimed of the result: which texts are read as an identifier, and as
/// which, is for the lexer that the running process uses.
#[verifier::external_body]
fn ident_from_string(value: &str) -> (r: Result<String, darling::Error>) {
    let ident = <syn::Ident as darling::FromMeta>::from_string(value)?;
    Ok(ident.to_string())
}

/// The mathematical value of an optional text.
pub open spec fn text_view(text: Option<String>) -> Option<Seq<char>> {
    match text {
        Some(t) => Some(t@),
        None => None,
    }
}

/// The token that stands for a literal, where `ident` is the identifier
/// that was read in the value of a string literal, if one was: an integer
/// or a verbatim literal as it is written, a string as that identifier, and
/// none for a literal of another kind. A string in which no identifier was
/// read is refused, with its value.
pub open spec fn quoted(lit: LiteralView, ident: Option<Seq<char>>) -> Result<
    Option<Seq<char>>,
    Seq<char>,
> {
    match lit {
        LiteralView::Int(text) => Ok(Some(text)),
        LiteralView::Verbatim(text) => Ok(Some(text)),
        LiteralView::Other => Ok(None),
        LiteralView::Str(value) => match ident {
            Some(name) => Ok(Some(name)),
            None => Err(value),
        },
    }
}

/// The mathematical value of what [`quote_literal`] and [`lit_to_quote`]
/// return.
pub open spec fn quote_result_view(r: Result<Option<String>, InvalidIdent>) -> Result<
    Option<Seq<char>>,
    Seq<char>,
> {
    match r {
        Ok(token) => Ok(text_view(token)),
        Err(e) => Err(e.value@),
    }
}

/// Writes a literal out as a token, given the identifier that was read in
/// the value of a string literal. For a literal that is no string, `ident`
/// is not looked at.
pub fn quote_literal(lit: &Literal, ident: Option<String>) -> (r: Result<
    Option<String>,
    InvalidIdent,
>)
    ensures
        quote_result_view(r) == quoted(lit@, text_view(ident)),
{
    match lit {
        Literal::Int(text) => Ok(Some(text.clone())),
        Literal::Verbatim(text) => Ok(Some(text.clone())),
        Literal::Other => Ok(None),
        Literal::Str(value) => match ident {
            Some(name) => Ok(Some(name)),
            None => Err(InvalidIdent { value: value.clone() }),
        },
    }
}

/// Writes a literal out as a token. The value of a string literal is read
/// as an identifier; whether one is read in it, and which, is not fixed
/// here, so of a string it is only known that it comes out as some token or
/// is refused with its value.
pub fn lit_to_quote(lit: &Literal) -> (r: Result<Option<String>, InvalidIdent>)
    ensures
        lit@ matches LiteralView::Int(text) ==> r matches Ok(Some(token)) && token@ == text,
        lit@ matches LiteralView::Verbatim(text) ==> r matches Ok(Some(token)) && token@ == text,
        lit@ is Other ==> r matches Ok(None),
        lit@ matches LiteralView::Str(value) ==> match r {
            Ok(token) => token is Some,
            Err(e) => e.value@ == value,
        },
{
    let ident = match lit {
        Literal::Str(value) => match ident_from_string(value.as_str()) {
            Ok(name) => Some(name),
            Err(_) => None,
        },
        _ => None,
    };
    quote_literal(lit, ident)
}

/// The attribute has the structure of a path with a body, and its path is
/// the name of the group.
pub open spec fn names_group(a: Attribute) -> bool {
    a.meta matches Some(m) && m.path matches Some(p) && p@ == ATTRIBUTE_GROUP@
}

/// `i` is the position of the first attribute that names the group.
pub open spec fn is_group_at(attrs: Seq<Attribute>, i: int) -> bool {
    &&& 0 <= i < attrs.len()
    &&& names_group(attrs[i])
    &&& forall|j: int| 0 <= j < i ==> !names_group(#[trigger] attrs[j])
}

/// Finds the arguments of the group: those of the first attribute that
/// names the group, where that attribute has an argument list.
pub fn menu_group(attrs: &Vec<Attribute>) -> (r: Option<&Vec<NestedItem>>)
    ensures
        match r {
            Some(items) => exists|i: int|
                is_group_at(attrs@, i) && attrs@[i].meta->Some_0.body == MetaBody::List(*items),
            None => forall|i: int|
                is_group_at(attrs@, i) ==> !(attrs@[i].meta->Some_0.body is List),
        },
{
    let group = String::from_str(ATTRIBUTE_GROUP);
    let mut i: usize = 0;
    while i < attrs.len()
        invariant
            0 <= i <= attrs.len(),
            group@ == ATTRIBUTE_GROUP@,
            forall|j: int| 0 <= j < i ==> !names_group(#[trigger] attrs@[j]),
        decreases attrs.len() - i,
    {
        if let Some(meta) = &attrs[i].meta {
            if let Some(path) = &meta.path {
                if *path == group {
                    assert(is_group_at(attrs@, i as int));
                    return match &meta.body {
                        MetaBody::List(items) => Some(items),
                        _ => None,
                    };
                }
            }
        }
        i += 1;
    }
    None
}

impl Default for FieldAttrs {
    fn default() -> (r: Self)
        ensures
            r.label is None,
    {
        Self { label: None }
    }
}

impl FieldAttrs {
    /// Reads the configuration of a field from its attributes. The literals
    /// of the group are converted and then dropped, so no label is ever set.
    pub fn parse(attrs: &Vec<Attribute>) -> (r: Self)
        ensures
            r.label is None,
    {
        let s = Self::default();
        let items = match menu_group(attrs) {
            Some(items) => items,
            None => {
                return s;
            },
        };
        let mut i: usize = 0;
        while i < items.len()
            invariant
                0 <= i <= items.len(),
                s.label is None,
            decreases items.len() - i,
        {
            match &items[i] {
                NestedItem::NameValue(lit) => {
                    let _ = lit_to_quote(lit);
                },
                NestedItem::Other => {},
            }
            i += 1;
        }
        s
    }
}

} // verus!
