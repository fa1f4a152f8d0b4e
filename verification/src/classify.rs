//! The variant classifier: from a declaration to the ordered list of
//! variant names and shapes, or the reason why nothing can be derived.

use vstd::prelude::*;
use crate::decl::{DeclKind, Declaration, DeclarationView, Fields, VariantDeclView};

verus! {

/// The shape of a variant, as far as derivation cares.
#[derive(Clone, Copy, Debug, PartialEq, Eq, Structural)]
pub enum Shape {
    /// The variant carries no data.
    Empty,
    /// The variant wraps exactly one unnamed value, a sub-element.
    SinglePayload,
    /// Anything else. Nothing is derived for a union that has such a variant.
    Other,
}

/// A variant together with its shape.
#[derive(Clone, Debug, PartialEq, Eq)]
pub struct Classified {
    pub name: String,
    pub shape: Shape,
}

/// The mathematical value of a [`Classified`].
pub struct ClassifiedView {
    pub name: Seq<char>,
    pub shape: Shape,
}

impl View for Classified {
    type V = ClassifiedView;

    open spec fn view(&self) -> ClassifiedView {
        ClassifiedView { name: self.name@, shape: self.shape }
    }
}

/// Why a declaration was refused.
#[derive(Clone, Debug, PartialEq, Eq)]
pub enum DeriveError {
    /// No type declaration was read in the text.
    Syntax,
    /// The declaration is not a tagged union.
    NotAnEnum,
    /// The named variant has named fields or more than one field.
    UnsupportedVariant(String),
}

/// The mathematical value of a [`DeriveError`].
pub enum DeriveErrorView {
    Syntax,
    NotAnEnum,
    UnsupportedVariant(Seq<char>),
}

impl View for DeriveError {
    type V = DeriveErrorView;

    open spec fn view(&self) -> DeriveErrorView {
        match self {
            DeriveError::Syntax => DeriveErrorView::Syntax,
            DeriveError::NotAnEnum => DeriveErrorView::NotAnEnum,
            DeriveError::UnsupportedVariant(name) => DeriveErrorView::UnsupportedVariant(name@),
        }
    }
}

/// The shape of a variant with the given fields: no field at all is
/// `Empty`, exactly one unnamed field is `SinglePayload`, the rest is `Other`.
pub open spec fn shape_of(fields: Fields) -> Shape {
    if fields.arity() == 0 {
        Shape::Empty
    } else if fields == Fields::Unnamed(1) {
        Shape::SinglePayload
    } else {
        Shape::Other
    }
}

/// The classification of one variant.
pub open spec fn classified(v: VariantDeclView) -> ClassifiedView {
    ClassifiedView { name: v.name, shape: shape_of(v.fields) }
}

/// Every variant has a shape that derivation supports.
pub open spec fn all_supported(variants: Seq<VariantDeclView>) -> bool {
    forall|i: int| 0 <= i < variants.len() ==> shape_of(#[trigger] variants[i].fields) != Shape::Other
}

/// `i` is the position of the first variant whose shape is not supported.
pub open spec fn first_unsupported(variants: Seq<VariantDeclView>, i: int) -> bool {
    &&& 0 <= i < variants.len()
    &&& shape_of(variants[i].fields) == Shape::Other
    &&& all_supported(variants.take(i))
}

/// The classification of each variant, in order.
pub open spec fn classified_all(variants: Seq<VariantDeclView>) -> Seq<ClassifiedView> {
    Seq::new(variants.len(), |i: int| classified(variants[i]))
}

/// The mathematical value of a list of classified variants.
pub open spec fn classified_list(list: Seq<Classified>) -> Seq<ClassifiedView> {
    list.map_values(|c: Classified| c@)
}

/// What classification yields for a declaration: the variants with their
/// shapes, in order, where the declaration is an enum and every variant is
/// supported; otherwise the error, which names the first offending variant.
pub open spec fn classification(d: DeclarationView) -> Result<Seq<ClassifiedView>, DeriveErrorView> {
    if d.kind != DeclKind::Enum {
        Err(DeriveErrorView::NotAnEnum)
    } else if all_supported(d.variants) {
        Ok(classified_all(d.variants))
    } else {
        let i = choose|i: int| first_unsupported(d.variants, i);
        Err(DeriveErrorView::UnsupportedVariant(d.variants[i].name))
    }
}

/// The mathematical value of what [`classify`] returns.
pub open spec fn classify_result_view(r: Result<Vec<Classified>, DeriveError>) -> Result<
    Seq<ClassifiedView>,
    DeriveErrorView,
> {
    match r {
        Ok(list) => Ok(classified_list(list@)),
        Err(e) => Err(e@),
    }
}

/// At most one position is the first unsupported one.
pub proof fn first_unsupported_is_unique(variants: Seq<VariantDeclView>, i: int, j: int)
    requires
        first_unsupported(variants, i),
        first_unsupported(variants, j),
    ensures
        i == j,
{
    if i < j {
        assert(variants.take(j)[i] == variants[i]);
    } else if j < i {
        assert(variants.take(i)[j] == variants[j]);
    }
}

/// The shape of a variant with the given fields.
pub fn classify_fields(fields: Fields) -> (shape: Shape)
    ensures
        shape == shape_of(fields),
{
    match fields {
        Fields::Unit => Shape::Empty,
        Fields::Unnamed(n) => if n == 0 {
            Shape::Empty
        } else if n == 1 {
            Shape::SinglePayload
        } else {
            Shape::Other
        },
        Fields::Named(n) => if n == 0 {
            Shape::Empty
        } else {
            Shape::Other
        },
    }
}

/// Classifies every variant of a declaration. The whole declaration is
/// refused if it is no enum, or if any variant has an unsupported shape; the
/// error then names the first such variant.
pub fn classify(d: &Declaration) -> (r: Result<Vec<Classified>, DeriveError>)
    ensures
        classify_result_view(r) == classification(d@),
{
    match d.kind {
        DeclKind::Enum => {},
        _ => {
            return Err(DeriveError::NotAnEnum);
        },
    }
    let mut list: Vec<Classified> = Vec::new();
    let mut i: usize = 0;
    while i < d.variants.len()
        invariant
            0 <= i <= d.variants.len(),
            d@.kind == DeclKind::Enum,
            list@.len() == i,
            all_supported(d@.variants.take(i as int)),
            classified_list(list@) == classified_all(d@.variants.take(i as int)),
        decreases d.variants.len() - i,
    {
        let v = &d.variants[i];
        let shape = classify_fields(v.fields);
        assert(d@.variants[i as int] == v@);
        match shape {
            Shape::Other => {
                proof {
                    assert(first_unsupported(d@.variants, i as int));
                    assert(!all_supported(d@.variants));
                    let k = choose|k: int| first_unsupported(d@.variants, k);
                    first_unsupported_is_unique(d@.variants, i as int, k);
                }
                return Err(DeriveError::UnsupportedVariant(v.name.clone()));
            },
            _ => {},
        }
        let ghost listed = list@;
        list.push(Classified { name: v.name.clone(), shape });
        proof {
            let before = d@.variants.take(i as int);
            let after = d@.variants.take(i + 1);
            assert forall|k: int| 0 <= k < after.len() implies shape_of(
                #[trigger] after[k].fields,
            ) != Shape::Other by {
                if k < i {
                    assert(after[k] == before[k]);
                }
            }
            assert forall|k: int| 0 <= k < after.len() implies classified_list(list@)[k]
                == classified_all(after)[k] by {
                if k < i {
                    assert(list@[k] == listed[k]);
                    assert(classified_list(listed)[k] == classified_all(before)[k]);
                }
            }
            assert(classified_list(list@) =~= classified_all(after));
        }
        i += 1;
    }
    proof {
        assert(d@.variants.take(i as int) == d@.variants);
    }
    Ok(list)
}

} // verus!
