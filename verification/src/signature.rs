//! The signature builder.
//!
//! From a declaration's name and its parameter list it builds the fully
//! applied type signature `Name<p1, p2, ...>`, which both names the butchered
//! companion type and serves as the substitution target for self-references.
//! Const-valued parameters are dropped from the instantiated argument list;
//! type and borrow-duration parameters are preserved in declaration order.

use vstd::prelude::*;

use crate::type_expr::GenericArgument;
use crate::type_expr::GenericArgumentList;
use crate::type_expr::PathArguments;
use crate::type_expr::PathSegment;
use crate::type_expr::SegmentList;
use crate::type_expr::TypeExpr;

verus! {

/// One parameter of a declaration, by kind and name.
#[derive(Debug, PartialEq, Eq)]
pub enum GenericParam {
    /// A type parameter.
    Type(String),
    /// A borrow-duration parameter.
    Lifetime(String),
    /// A const-valued parameter.
    Const(String),
}

/// A declaration's parameter list.  `bracketed` records whether the
/// declaration carries an angle-bracketed list at all (an empty one still
/// shows up in the signature).
#[derive(Debug, PartialEq, Eq)]
pub struct Generics {
    pub bracketed: bool,
    pub params: Vec<GenericParam>,
}

/// The argument a parameter contributes to the instantiated signature:
/// a plain path for a type parameter, the name itself for a borrow-duration
/// parameter, nothing for a const-valued one.
pub open spec fn generic_param_spec(p: GenericParam) -> Option<GenericArgument> {
    match p {
        GenericParam::Type(ident) => Option::Some(
            GenericArgument::Type(
                Box::new(
                    TypeExpr::Path(
                        Option::None,
                        SegmentList::Cons(
                            PathSegment { ident, arguments: PathArguments::Plain },
                            Box::new(SegmentList::Nil),
                        ),
                    ),
                ),
            ),
        ),
        GenericParam::Lifetime(ident) => Option::Some(GenericArgument::Lifetime(ident)),
        GenericParam::Const(_) => Option::None,
    }
}

/// The arguments the parameters starting at `i` contribute, in order.
pub open spec fn arguments_of_params(params: Seq<GenericParam>, i: int) -> GenericArgumentList
    decreases params.len() - i,
{
    if i < 0 || i >= params.len() {
        GenericArgumentList::Nil
    } else {
        match generic_param_spec(params[i]) {
            Option::Some(g) => GenericArgumentList::Cons(
                Box::new(g),
                Box::new(arguments_of_params(params, i + 1)),
            ),
            Option::None => arguments_of_params(params, i + 1),
        }
    }
}

/// The single path segment of the instantiated signature.
pub open spec fn path_segments_spec(ident: String, generics: Generics) -> SegmentList {
    SegmentList::Cons(
        PathSegment {
            ident,
            arguments: if generics.bracketed {
                PathArguments::AngleBracketed(arguments_of_params(generics.params@, 0))
            } else {
                PathArguments::Plain
            },
        },
        Box::new(SegmentList::Nil),
    )
}

/// The fully applied signature built from a name and a parameter list.
pub open spec fn type_signature_spec(ident: String, generics: Generics) -> TypeExpr {
    TypeExpr::Path(Option::None, path_segments_spec(ident, generics))
}

/// Turn one declaration parameter into its signature argument, if it
/// contributes one.
pub fn generic_param(p: &GenericParam) -> (r: Option<GenericArgument>)
    ensures
        r == generic_param_spec(*p),
{
    match p {
        GenericParam::Type(ident) => Option::Some(
            GenericArgument::Type(
                Box::new(
                    TypeExpr::Path(
                        Option::None,
                        SegmentList::Cons(
                            PathSegment { ident: ident.clone(), arguments: PathArguments::Plain },
                            Box::new(SegmentList::Nil),
                        ),
                    ),
                ),
            ),
        ),
        GenericParam::Lifetime(ident) => Option::Some(GenericArgument::Lifetime(ident.clone())),
        GenericParam::Const(_) => Option::None,
    }
}

/// The instantiated argument list of a parameter list: const-valued
/// parameters dropped, the others in declaration order.
pub fn arguments_from_params(params: &Vec<GenericParam>) -> (r: GenericArgumentList)
    ensures
        r == arguments_of_params(params@, 0),
{
    let mut acc = GenericArgumentList::Nil;
    let mut i = params.len();
    while i > 0
        invariant
            i <= params.len(),
            acc == arguments_of_params(params@, i as int),
        decreases i,
    {
        i = i - 1;
        match generic_param(&params[i]) {
            Option::Some(g) => {
                acc = GenericArgumentList::Cons(Box::new(g), Box::new(acc));
            },
            Option::None => {
            },
        }
    }
    acc
}

/// The segment list of the instantiated signature: one segment, carrying
/// the argument list exactly when the declaration was bracketed.
pub fn create_path_segments(ident: &String, generics: &Generics) -> (r: SegmentList)
    ensures
        r == path_segments_spec(*ident, *generics),
{
    let arguments = if generics.bracketed {
        PathArguments::AngleBracketed(arguments_from_params(&generics.params))
    } else {
        PathArguments::Plain
    };
    SegmentList::Cons(PathSegment { ident: ident.clone(), arguments }, Box::new(SegmentList::Nil))
}

/// The fully applied type signature of a declaration given by name and
/// parameter list.
pub fn create_type_signature_from_raws(ident: &String, generics: &Generics) -> (r: TypeExpr)
    ensures
        r == type_signature_spec(*ident, *generics),
{
    TypeExpr::Path(Option::None, create_path_segments(ident, generics))
}

/// The fully applied type signature of a source declaration.
pub fn create_type_signature(decl: &crate::reader::RawDeclaration) -> (r: TypeExpr)
    ensures
        r == type_signature_spec(decl.ident, decl.generics),
{
    create_type_signature_from_raws(&decl.ident, &decl.generics)
}

impl GenericParam {
    /// An independent value equal to `self`.
    pub fn duplicate(&self) -> (r: GenericParam)
        ensures
            r == *self,
    {
        match self {
            GenericParam::Type(s) => GenericParam::Type(s.clone()),
            GenericParam::Lifetime(s) => GenericParam::Lifetime(s.clone()),
            GenericParam::Const(s) => GenericParam::Const(s.clone()),
        }
    }
}

impl Generics {
    /// An independent parameter list standing for the same parameters.
    pub fn duplicate(&self) -> (r: Generics)
        ensures
            r.bracketed == self.bracketed,
            r.params@ == self.params@,
    {
        let mut params: Vec<GenericParam> = Vec::new();
        let mut i: usize = 0;
        while i < self.params.len()
            invariant
                i <= self.params.len(),
                params@.len() == i,
                forall|j: int| 0 <= j < i ==> params@[j] == self.params@[j],
            decreases self.params.len() - i,
        {
            params.push(self.params[i].duplicate());
            i = i + 1;
        }
        proof {
            assert(params@ =~= self.params@);
        }
        Generics { bracketed: self.bracketed, params }
    }
}

} // verus!
