//! Strategy descriptors.
//!
//! Every field of a declaration resolves to exactly one strategy tag out of
//! a closed set.  The tag is the descriptor: it carries, as functions, the
//! transform its view field's type undergoes and the capabilities the field
//! type must provide.  Dispatch on the tag happens at generation time, per
//! field; the generated conversions then call the matching butchering
//! method of [`crate::methods`] directly.

use vstd::prelude::*;

use crate::type_expr::GenericArgument;
use crate::type_expr::GenericArgumentList;
use crate::type_expr::PathArguments;
use crate::type_expr::PathSegment;
use crate::type_expr::SegmentList;
use crate::type_expr::TypeExpr;

verus! {

/// The closed set of per-field strategies.
#[derive(Debug, PartialEq, Eq)]
pub enum StrategyTag {
    /// Wrap the field in a copy-on-write value.
    Regular,
    /// Copy the field outright.
    Copy,
    /// Wrap the field's borrow-through target in a copy-on-write value.
    Flatten,
    /// See through one level of indirection.
    Unbox,
    /// Butcher the field's own type again.
    Recurse,
}

/// A capability a strategy demands of a type.
#[derive(Debug, PartialEq, Eq)]
pub enum Capability {
    /// The type must be duplicable.
    Duplicable,
    /// The type must borrow through to a duplicable target.
    BorrowsThrough,
    /// The type must itself support butchering.
    Butcher,
}

/// One emitted bound: a capability demanded of a subject type.
#[derive(Debug, PartialEq, Eq)]
pub struct RequiredBound {
    pub subject: TypeExpr,
    pub capability: Capability,
}

/// Whether `r` is the one-segment path `Cow<t>`.
pub open spec fn is_cow_of(r: TypeExpr, t: TypeExpr) -> bool {
    match r {
        TypeExpr::Path(q, segs) => q is None && match segs {
            SegmentList::Cons(seg, rest) => *rest is Nil && seg.ident@ == "Cow"@ && match (
            seg.arguments) {
                PathArguments::AngleBracketed(args) => match args {
                    GenericArgumentList::Cons(g, grest) => *grest is Nil && *g
                        == GenericArgument::Type(Box::new(t)),
                    GenericArgumentList::Nil => false,
                },
                _ => false,
            },
            SegmentList::Nil => false,
        },
        _ => false,
    }
}

/// Whether `r` is the qualified projection `<t as n0>::n1`, the names
/// given by their views.
pub open spec fn is_projection(r: TypeExpr, t: TypeExpr, n0: Seq<char>, n1: Seq<char>) -> bool {
    match r {
        TypeExpr::Path(q, segs) => match q {
            Option::Some(qt) => *qt == t && match segs {
                SegmentList::Cons(s0, rest0) => s0.ident@ == n0 && s0.arguments is Plain && match (
                *rest0) {
                    SegmentList::Cons(s1, rest1) => s1.ident@ == n1 && s1.arguments is Plain
                        && *rest1 is Nil,
                    SegmentList::Nil => false,
                },
                SegmentList::Nil => false,
            },
            Option::None => false,
        },
        _ => false,
    }
}

/// Whether `r` is the qualified projection `<t as BorrowsThrough>::Target`.
pub open spec fn is_target_projection(r: TypeExpr, t: TypeExpr) -> bool {
    is_projection(r, t, "BorrowsThrough"@, "Target"@)
}

/// Whether `r` is the qualified projection `<t as Butcher>::Output`.
pub open spec fn is_output_projection(r: TypeExpr, t: TypeExpr) -> bool {
    is_projection(r, t, "Butcher"@, "Output"@)
}

/// The inner type behind one level of indirection: the single type argument
/// of a one-segment path such as `Box<E>`.  Any other shape is handed back
/// unchanged — the capability requirement then fails at the host, never
/// silently.
pub open spec fn unbox_inner(t: TypeExpr) -> TypeExpr {
    match t {
        TypeExpr::Path(q, segs) => if q is None {
            match segs {
                SegmentList::Cons(seg, rest) => if *rest is Nil {
                    match seg.arguments {
                        PathArguments::AngleBracketed(args) => match args {
                            GenericArgumentList::Cons(g, grest) => if *grest is Nil {
                                match *g {
                                    GenericArgument::Type(inner) => *inner,
                                    _ => t,
                                }
                            } else {
                                t
                            },
                            GenericArgumentList::Nil => t,
                        },
                        _ => t,
                    }
                } else {
                    t
                },
                SegmentList::Nil => t,
            }
        } else {
            t
        },
        _ => t,
    }
}

/// The output-type transform of a strategy: how a view field's type is
/// derived from the (already self-substituted) source field type `t`.
pub open spec fn transformed_type(tag: StrategyTag, t: TypeExpr, r: TypeExpr) -> bool {
    match tag {
        StrategyTag::Regular => is_cow_of(r, t),
        StrategyTag::Copy => r == t,
        StrategyTag::Flatten => match r {
            TypeExpr::Path(q, segs) => q is None && match segs {
                SegmentList::Cons(seg, rest) => *rest is Nil && seg.ident@ == "Cow"@ && match (
                seg.arguments) {
                    PathArguments::AngleBracketed(args) => match args {
                        GenericArgumentList::Cons(g, grest) => *grest is Nil && match *g {
                            GenericArgument::Type(p) => is_target_projection(*p, t),
                            _ => false,
                        },
                        GenericArgumentList::Nil => false,
                    },
                    _ => false,
                },
                SegmentList::Nil => false,
            },
            _ => false,
        },
        StrategyTag::Unbox => is_cow_of(r, unbox_inner(t)),
        StrategyTag::Recurse => is_output_projection(r, t),
    }
}

/// The capabilities a strategy demands, in emission order.
pub open spec fn required_capabilities(tag: StrategyTag, t: TypeExpr, bs: Seq<
    RequiredBound,
>) -> bool {
    match tag {
        StrategyTag::Regular => bs.len() == 1 && bs[0].capability == Capability::Duplicable
            && bs[0].subject == t,
        StrategyTag::Copy => bs.len() == 1 && bs[0].capability == Capability::Duplicable
            && bs[0].subject == t,
        StrategyTag::Flatten => bs.len() == 2 && bs[0].capability == Capability::BorrowsThrough
            && bs[0].subject == t && bs[1].capability == Capability::Duplicable
            && is_target_projection(bs[1].subject, t),
        StrategyTag::Unbox => bs.len() == 1 && bs[0].capability == Capability::Duplicable
            && bs[0].subject == unbox_inner(t),
        StrategyTag::Recurse => bs.len() == 2 && bs[0].capability == Capability::Butcher
            && bs[0].subject == t && bs[1].capability == Capability::Duplicable && bs[1].subject
            == t,
    }
}

/// The one-segment path `Cow<t>`.
fn cow_of(t: TypeExpr) -> (r: TypeExpr)
    ensures
        is_cow_of(r, t),
{
    TypeExpr::Path(
        Option::None,
        SegmentList::Cons(
            PathSegment {
                ident: String::from_str("Cow"),
                arguments: PathArguments::AngleBracketed(
                    GenericArgumentList::Cons(
                        Box::new(GenericArgument::Type(Box::new(t))),
                        Box::new(GenericArgumentList::Nil),
                    ),
                ),
            },
            Box::new(SegmentList::Nil),
        ),
    )
}

/// The qualified projection `<t as trait_name>::assoc_name`.
fn projection(t: TypeExpr, trait_name: &str, assoc_name: &str) -> (r: TypeExpr)
    ensures
        is_projection(r, t, trait_name@, assoc_name@),
{
    TypeExpr::Path(
        Option::Some(Box::new(t)),
        SegmentList::Cons(
            PathSegment { ident: trait_name.to_owned(), arguments: PathArguments::Plain },
            Box::new(
                SegmentList::Cons(
                    PathSegment { ident: assoc_name.to_owned(), arguments: PathArguments::Plain },
                    Box::new(SegmentList::Nil),
                ),
            ),
        ),
    )
}

impl StrategyTag {
    /// An independent value equal to `self`.
    pub fn duplicate(&self) -> (r: StrategyTag)
        ensures
            r == *self,
    {
        match self {
            StrategyTag::Regular => StrategyTag::Regular,
            StrategyTag::Copy => StrategyTag::Copy,
            StrategyTag::Flatten => StrategyTag::Flatten,
            StrategyTag::Unbox => StrategyTag::Unbox,
            StrategyTag::Recurse => StrategyTag::Recurse,
        }
    }

    /// The view field type this strategy derives from the source field type.
    pub fn transform_type(&self, t: TypeExpr) -> (r: TypeExpr)
        ensures
            transformed_type(*self, t, r),
    {
        match self {
            StrategyTag::Regular => cow_of(t),
            StrategyTag::Copy => t,
            StrategyTag::Flatten => cow_of(projection(t, "BorrowsThrough", "Target")),
            StrategyTag::Unbox => {
                let inner = unbox_inner_exec(t);
                cow_of(inner)
            },
            StrategyTag::Recurse => projection(t, "Butcher", "Output"),
        }
    }

    /// The bound list this strategy contributes for a field of type `t`.
    pub fn required_bounds(&self, t: &TypeExpr) -> (r: Vec<RequiredBound>)
        ensures
            required_capabilities(*self, *t, r@),
    {
        let mut bs: Vec<RequiredBound> = Vec::new();
        match self {
            StrategyTag::Regular => {
                bs.push(RequiredBound { subject: t.duplicate(), capability: Capability::Duplicable });
            },
            StrategyTag::Copy => {
                bs.push(RequiredBound { subject: t.duplicate(), capability: Capability::Duplicable });
            },
            StrategyTag::Flatten => {
                bs.push(
                    RequiredBound { subject: t.duplicate(), capability: Capability::BorrowsThrough },
                );
                bs.push(
                    RequiredBound {
                        subject: projection(t.duplicate(), "BorrowsThrough", "Target"),
                        capability: Capability::Duplicable,
                    },
                );
            },
            StrategyTag::Unbox => {
                bs.push(
                    RequiredBound {
                        subject: unbox_inner_exec(t.duplicate()),
                        capability: Capability::Duplicable,
                    },
                );
            },
            StrategyTag::Recurse => {
                bs.push(RequiredBound { subject: t.duplicate(), capability: Capability::Butcher });
                bs.push(RequiredBound { subject: t.duplicate(), capability: Capability::Duplicable });
            },
        }
        bs
    }
}

/// The inner type behind one level of indirection, as [`unbox_inner`].
fn unbox_inner_exec(t: TypeExpr) -> (r: TypeExpr)
    ensures
        r == unbox_inner(t),
{
    let extracted: Option<TypeExpr> = match &t {
        TypeExpr::Path(Option::None, SegmentList::Cons(seg, rest)) => {
            if matches!(**rest, SegmentList::Nil) {
                match &seg.arguments {
                    PathArguments::AngleBracketed(GenericArgumentList::Cons(g, grest)) => {
                        if matches!(**grest, GenericArgumentList::Nil) {
                            match &**g {
                                GenericArgument::Type(inner) => Option::Some((**inner).duplicate()),
                                _ => Option::None,
                            }
                        } else {
                            Option::None
                        }
                    },
                    _ => Option::None,
                }
            } else {
                Option::None
            }
        },
        _ => Option::None,
    };
    match extracted {
        Option::Some(inner) => inner,
        Option::None => t,
    }
}

} // verus!
