//! Type expressions and the self-reference rewriter.
//!
//! A [`TypeExpr`] models a declared field type as a tree over a closed set of
//! constituent forms: arrays, bare function types, grouping wrappers,
//! opaque-trait and trait-object bounds, paths with their generic-argument
//! lists, pointer, reference and slice wrappers, and tuples.  The marker
//! denoting "this same type" is a plain `Self` path; [`TypeExpr::replace`]
//! rewrites every occurrence of it with a concrete instantiated signature,
//! so that recursive declarations can be processed on a nameable type.  Any
//! constituent form outside the closed set makes the rewrite fail —
//! exhaustive grammar coverage is an explicit non-goal.

use vstd::prelude::*;

verus! {

/// The rewriter met a constituent form it does not recognize.
#[derive(Debug, PartialEq, Eq)]
pub struct UnsupportedTypeShape;

/// A type expression.
#[derive(Debug, PartialEq, Eq)]
pub enum TypeExpr {
    /// An array; its length plays no part in rewriting.
    Array(Box<TypeExpr>),
    /// A bare function type: its inputs and its optional output.
    BareFn(TypeExprList, Option<Box<TypeExpr>>),
    /// An invisible grouping wrapper.
    Group(Box<TypeExpr>),
    /// An opaque `impl` form carrying its bounds.
    ImplTrait(BoundList),
    /// The inferred type.
    Infer,
    /// A macro call in type position; opaque, never descended into.
    MacroCall,
    /// The never type.
    Never,
    /// A parenthesized type.
    Paren(Box<TypeExpr>),
    /// A path, with an optional qualified-self prefix and its segments.
    Path(Option<Box<TypeExpr>>, SegmentList),
    /// A raw pointer.
    Ptr(Box<TypeExpr>),
    /// A reference, with an optional named borrow duration.
    Reference(Option<String>, Box<TypeExpr>),
    /// A slice.
    Slice(Box<TypeExpr>),
    /// A trait object carrying its bounds.
    TraitObject(BoundList),
    /// A tuple.
    Tuple(TypeExprList),
    /// An opaque verbatim form; never descended into.
    Verbatim,
    /// Any constituent form outside the closed set above.
    Unsupported,
}

/// A list of type expressions.
#[derive(Debug, PartialEq, Eq)]
pub enum TypeExprList {
    Nil,
    Cons(Box<TypeExpr>, Box<TypeExprList>),
}

/// One segment of a path.
#[derive(Debug, PartialEq, Eq)]
pub struct PathSegment {
    pub ident: String,
    pub arguments: PathArguments,
}

/// A list of path segments.
#[derive(Debug, PartialEq, Eq)]
pub enum SegmentList {
    Nil,
    Cons(PathSegment, Box<SegmentList>),
}

/// The arguments of one path segment.
#[derive(Debug, PartialEq, Eq)]
pub enum PathArguments {
    /// No argument list at all.
    Plain,
    /// An angle-bracketed argument list.
    AngleBracketed(GenericArgumentList),
    /// A parenthesized list of inputs with an optional output.
    Parenthesized(TypeExprList, Option<Box<TypeExpr>>),
}

/// One generic argument.
#[derive(Debug, PartialEq, Eq)]
pub enum GenericArgument {
    /// A named borrow duration.
    Lifetime(String),
    /// A type argument.
    Type(Box<TypeExpr>),
    /// An associated-type binding.
    Binding(String, Box<TypeExpr>),
    /// An associated-type constraint.
    Constraint(String, BoundList),
    /// A const-valued argument; opaque, never descended into.
    Const,
}

/// A list of generic arguments.
#[derive(Debug, PartialEq, Eq)]
pub enum GenericArgumentList {
    Nil,
    Cons(Box<GenericArgument>, Box<GenericArgumentList>),
}

/// One bound of an `impl` form, a trait object or a constraint.
#[derive(Debug, PartialEq, Eq)]
pub enum TypeBound {
    /// A trait bound, as the path naming the trait.
    Trait(Box<TypeExpr>),
    /// A borrow-duration bound.
    Lifetime(String),
}

/// A list of bounds.
#[derive(Debug, PartialEq, Eq)]
pub enum BoundList {
    Nil,
    Cons(TypeBound, Box<BoundList>),
}

/// Whether `t` is the self-reference marker: the plain one-segment path
/// `Self`, with no qualified-self prefix and no arguments.
pub open spec fn is_self_marker(t: TypeExpr) -> bool {
    match t {
        TypeExpr::Path(q, segs) => q is None && match segs {
            SegmentList::Cons(seg, rest) => seg.arguments is Plain && *rest is Nil
                && seg.ident@ == "Self"@,
            SegmentList::Nil => false,
        },
        _ => false,
    }
}

/// Whether every constituent form of `t` is one the rewriter recognizes.
pub open spec fn supported(t: TypeExpr) -> bool
    decreases t,
{
    match t {
        TypeExpr::Array(e) => supported(*e),
        TypeExpr::BareFn(inputs, output) => supported_list(inputs) && supported_output(output),
        TypeExpr::Group(e) => supported(*e),
        TypeExpr::ImplTrait(bounds) => supported_bounds(bounds),
        TypeExpr::Infer => true,
        TypeExpr::MacroCall => true,
        TypeExpr::Never => true,
        TypeExpr::Paren(e) => supported(*e),
        TypeExpr::Path(q, segs) => is_self_marker(t) || (supported_output(q) && supported_segments(
            segs,
        )),
        TypeExpr::Ptr(e) => supported(*e),
        TypeExpr::Reference(_, e) => supported(*e),
        TypeExpr::Slice(e) => supported(*e),
        TypeExpr::TraitObject(bounds) => supported_bounds(bounds),
        TypeExpr::Tuple(elems) => supported_list(elems),
        TypeExpr::Verbatim => true,
        TypeExpr::Unsupported => false,
    }
}

/// Whether every element of the list is supported.
pub open spec fn supported_list(l: TypeExprList) -> bool
    decreases l,
{
    match l {
        TypeExprList::Nil => true,
        TypeExprList::Cons(e, rest) => supported(*e) && supported_list(*rest),
    }
}

/// Whether an optional type expression is supported.
pub open spec fn supported_output(o: Option<Box<TypeExpr>>) -> bool
    decreases o,
{
    match o {
        Option::None => true,
        Option::Some(e) => supported(*e),
    }
}

/// Whether every segment of the list is supported.
pub open spec fn supported_segments(l: SegmentList) -> bool
    decreases l,
{
    match l {
        SegmentList::Nil => true,
        SegmentList::Cons(seg, rest) => supported_arguments(seg.arguments) && supported_segments(
            *rest,
        ),
    }
}

/// Whether a segment's arguments are supported.
pub open spec fn supported_arguments(a: PathArguments) -> bool
    decreases a,
{
    match a {
        PathArguments::Plain => true,
        PathArguments::AngleBracketed(args) => supported_gargs(args),
        PathArguments::Parenthesized(inputs, output) => supported_list(inputs) && supported_output(
            output,
        ),
    }
}

/// Whether one generic argument is supported.
pub open spec fn supported_garg(g: GenericArgument) -> bool
    decreases g,
{
    match g {
        GenericArgument::Lifetime(_) => true,
        GenericArgument::Type(t) => supported(*t),
        GenericArgument::Binding(_, t) => supported(*t),
        GenericArgument::Constraint(_, bounds) => supported_bounds(bounds),
        GenericArgument::Const => true,
    }
}

/// Whether every generic argument of the list is supported.
pub open spec fn supported_gargs(l: GenericArgumentList) -> bool
    decreases l,
{
    match l {
        GenericArgumentList::Nil => true,
        GenericArgumentList::Cons(g, rest) => supported_garg(*g) && supported_gargs(*rest),
    }
}

/// Whether one bound is supported.
pub open spec fn supported_bound(b: TypeBound) -> bool
    decreases b,
{
    match b {
        TypeBound::Trait(p) => supported(*p),
        TypeBound::Lifetime(_) => true,
    }
}

/// Whether every bound of the list is supported.
pub open spec fn supported_bounds(l: BoundList) -> bool
    decreases l,
{
    match l {
        BoundList::Nil => true,
        BoundList::Cons(b, rest) => supported_bound(b) && supported_bounds(*rest),
    }
}

/// `t` with every occurrence of the self-reference marker replaced by `rep`.
pub open spec fn replaced(t: TypeExpr, rep: TypeExpr) -> TypeExpr
    decreases t,
{
    if is_self_marker(t) {
        rep
    } else {
        match t {
            TypeExpr::Array(e) => TypeExpr::Array(Box::new(replaced(*e, rep))),
            TypeExpr::BareFn(inputs, output) => TypeExpr::BareFn(
                replaced_list(inputs, rep),
                replaced_output(output, rep),
            ),
            TypeExpr::Group(e) => TypeExpr::Group(Box::new(replaced(*e, rep))),
            TypeExpr::ImplTrait(bounds) => TypeExpr::ImplTrait(replaced_bounds(bounds, rep)),
            TypeExpr::Infer => t,
            TypeExpr::MacroCall => t,
            TypeExpr::Never => t,
            TypeExpr::Paren(e) => TypeExpr::Paren(Box::new(replaced(*e, rep))),
            TypeExpr::Path(q, segs) => TypeExpr::Path(
                replaced_output(q, rep),
                replaced_segments(segs, rep),
            ),
            TypeExpr::Ptr(e) => TypeExpr::Ptr(Box::new(replaced(*e, rep))),
            TypeExpr::Reference(lt, e) => TypeExpr::Reference(lt, Box::new(replaced(*e, rep))),
            TypeExpr::Slice(e) => TypeExpr::Slice(Box::new(replaced(*e, rep))),
            TypeExpr::TraitObject(bounds) => TypeExpr::TraitObject(replaced_bounds(bounds, rep)),
            TypeExpr::Tuple(elems) => TypeExpr::Tuple(replaced_list(elems, rep)),
            TypeExpr::Verbatim => t,
            TypeExpr::Unsupported => t,
        }
    }
}

/// Element-wise [`replaced`] over a list.
pub open spec fn replaced_list(l: TypeExprList, rep: TypeExpr) -> TypeExprList
    decreases l,
{
    match l {
        TypeExprList::Nil => l,
        TypeExprList::Cons(e, rest) => TypeExprList::Cons(
            Box::new(replaced(*e, rep)),
            Box::new(replaced_list(*rest, rep)),
        ),
    }
}

/// [`replaced`] under an optional type expression.
pub open spec fn replaced_output(o: Option<Box<TypeExpr>>, rep: TypeExpr) -> Option<Box<TypeExpr>>
    decreases o,
{
    match o {
        Option::None => o,
        Option::Some(e) => Option::Some(Box::new(replaced(*e, rep))),
    }
}

/// Segment-wise rewriting: each segment keeps its name, its arguments are
/// rewritten.
pub open spec fn replaced_segments(l: SegmentList, rep: TypeExpr) -> SegmentList
    decreases l,
{
    match l {
        SegmentList::Nil => l,
        SegmentList::Cons(seg, rest) => SegmentList::Cons(
            PathSegment { ident: seg.ident, arguments: replaced_arguments(seg.arguments, rep) },
            Box::new(replaced_segments(*rest, rep)),
        ),
    }
}

/// [`replaced`] under a segment's arguments.
pub open spec fn replaced_arguments(a: PathArguments, rep: TypeExpr) -> PathArguments
    decreases a,
{
    match a {
        PathArguments::Plain => a,
        PathArguments::AngleBracketed(args) => PathArguments::AngleBracketed(
            replaced_gargs(args, rep),
        ),
        PathArguments::Parenthesized(inputs, output) => PathArguments::Parenthesized(
            replaced_list(inputs, rep),
            replaced_output(output, rep),
        ),
    }
}

/// [`replaced`] under one generic argument.
pub open spec fn replaced_garg(g: GenericArgument, rep: TypeExpr) -> GenericArgument
    decreases g,
{
    match g {
        GenericArgument::Lifetime(_) => g,
        GenericArgument::Type(t) => GenericArgument::Type(Box::new(replaced(*t, rep))),
        GenericArgument::Binding(ident, t) => GenericArgument::Binding(
            ident,
            Box::new(replaced(*t, rep)),
        ),
        GenericArgument::Constraint(ident, bounds) => GenericArgument::Constraint(
            ident,
            replaced_bounds(bounds, rep),
        ),
        GenericArgument::Const => g,
    }
}

/// Element-wise [`replaced_garg`] over a list.
pub open spec fn replaced_gargs(l: GenericArgumentList, rep: TypeExpr) -> GenericArgumentList
    decreases l,
{
    match l {
        GenericArgumentList::Nil => l,
        GenericArgumentList::Cons(g, rest) => GenericArgumentList::Cons(
            Box::new(replaced_garg(*g, rep)),
            Box::new(replaced_gargs(*rest, rep)),
        ),
    }
}

/// [`replaced`] under one bound.
pub open spec fn replaced_bound(b: TypeBound, rep: TypeExpr) -> TypeBound
    decreases b,
{
    match b {
        TypeBound::Trait(p) => TypeBound::Trait(Box::new(replaced(*p, rep))),
        TypeBound::Lifetime(_) => b,
    }
}

/// Element-wise [`replaced_bound`] over a list.
pub open spec fn replaced_bounds(l: BoundList, rep: TypeExpr) -> BoundList
    decreases l,
{
    match l {
        BoundList::Nil => l,
        BoundList::Cons(b, rest) => BoundList::Cons(
            replaced_bound(b, rep),
            Box::new(replaced_bounds(*rest, rep)),
        ),
    }
}

impl TypeExpr {
    /// An independent value equal to `self`.
    pub fn duplicate(&self) -> (r: TypeExpr)
        ensures
            r == *self,
        decreases *self,
    {
        match self {
            TypeExpr::Array(e) => TypeExpr::Array(Box::new((**e).duplicate())),
            TypeExpr::BareFn(inputs, output) => TypeExpr::BareFn(
                inputs.duplicate(),
                duplicate_output(output),
            ),
            TypeExpr::Group(e) => TypeExpr::Group(Box::new((**e).duplicate())),
            TypeExpr::ImplTrait(bounds) => TypeExpr::ImplTrait(bounds.duplicate()),
            TypeExpr::Infer => TypeExpr::Infer,
            TypeExpr::MacroCall => TypeExpr::MacroCall,
            TypeExpr::Never => TypeExpr::Never,
            TypeExpr::Paren(e) => TypeExpr::Paren(Box::new((**e).duplicate())),
            TypeExpr::Path(q, segs) => TypeExpr::Path(duplicate_output(q), segs.duplicate()),
            TypeExpr::Ptr(e) => TypeExpr::Ptr(Box::new((**e).duplicate())),
            TypeExpr::Reference(lt, e) => TypeExpr::Reference(
                duplicate_lifetime(lt),
                Box::new((**e).duplicate()),
            ),
            TypeExpr::Slice(e) => TypeExpr::Slice(Box::new((**e).duplicate())),
            TypeExpr::TraitObject(bounds) => TypeExpr::TraitObject(bounds.duplicate()),
            TypeExpr::Tuple(elems) => TypeExpr::Tuple(elems.duplicate()),
            TypeExpr::Verbatim => TypeExpr::Verbatim,
            TypeExpr::Unsupported => TypeExpr::Unsupported,
        }
    }

    /// Whether `self` is the self-reference marker.
    pub fn is_self_marker(&self) -> (r: bool)
        ensures
            r == is_self_marker(*self),
    {
        match self {
            TypeExpr::Path(q, segs) => match segs {
                SegmentList::Cons(seg, rest) => q.is_none() && matches!(**rest, SegmentList::Nil)
                    && matches!(seg.arguments, PathArguments::Plain) && seg.ident
                    == String::from_str("Self"),
                SegmentList::Nil => false,
            },
            _ => false,
        }
    }

    /// Rewrite every occurrence of the self-reference marker in `self` with
    /// `rep`, or fail if some constituent form is not recognized.
    pub fn replace(&self, rep: &TypeExpr) -> (r: Result<TypeExpr, UnsupportedTypeShape>)
        ensures
            r is Ok <==> supported(*self),
            r matches Ok(t) ==> t == replaced(*self, *rep),
        decreases *self,
    {
        if self.is_self_marker() {
            return Ok(rep.duplicate());
        }
        match self {
            TypeExpr::Array(e) => Ok(TypeExpr::Array(Box::new((**e).replace(rep)?))),
            TypeExpr::BareFn(inputs, output) => Ok(
                TypeExpr::BareFn(inputs.replace_each(rep)?, replace_output(output, rep)?),
            ),
            TypeExpr::Group(e) => Ok(TypeExpr::Group(Box::new((**e).replace(rep)?))),
            TypeExpr::ImplTrait(bounds) => Ok(TypeExpr::ImplTrait(bounds.replace_each(rep)?)),
            TypeExpr::Infer => Ok(TypeExpr::Infer),
            TypeExpr::MacroCall => Ok(TypeExpr::MacroCall),
            TypeExpr::Never => Ok(TypeExpr::Never),
            TypeExpr::Paren(e) => Ok(TypeExpr::Paren(Box::new((**e).replace(rep)?))),
            TypeExpr::Path(q, segs) => Ok(
                TypeExpr::Path(replace_output(q, rep)?, segs.replace_each(rep)?),
            ),
            TypeExpr::Ptr(e) => Ok(TypeExpr::Ptr(Box::new((**e).replace(rep)?))),
            TypeExpr::Reference(lt, e) => Ok(
                TypeExpr::Reference(duplicate_lifetime(lt), Box::new((**e).replace(rep)?)),
            ),
            TypeExpr::Slice(e) => Ok(TypeExpr::Slice(Box::new((**e).replace(rep)?))),
            TypeExpr::TraitObject(bounds) => Ok(TypeExpr::TraitObject(bounds.replace_each(rep)?)),
            TypeExpr::Tuple(elems) => Ok(TypeExpr::Tuple(elems.replace_each(rep)?)),
            TypeExpr::Verbatim => Ok(TypeExpr::Verbatim),
            TypeExpr::Unsupported => Err(UnsupportedTypeShape),
        }
    }
}

/// An independent value equal to an optional type expression.
fn duplicate_output(o: &Option<Box<TypeExpr>>) -> (r: Option<Box<TypeExpr>>)
    ensures
        r == *o,
    decreases *o,
{
    match o {
        Option::None => Option::None,
        Option::Some(e) => Option::Some(Box::new((**e).duplicate())),
    }
}

/// An independent value equal to an optional borrow-duration name.
fn duplicate_lifetime(o: &Option<String>) -> (r: Option<String>)
    ensures
        r == *o,
{
    match o {
        Option::None => Option::None,
        Option::Some(s) => Option::Some(s.clone()),
    }
}

/// [`TypeExpr::replace`] under an optional type expression.
fn replace_output(o: &Option<Box<TypeExpr>>, rep: &TypeExpr) -> (r: Result<
    Option<Box<TypeExpr>>,
    UnsupportedTypeShape,
>)
    ensures
        r is Ok <==> supported_output(*o),
        r matches Ok(t) ==> t == replaced_output(*o, *rep),
    decreases *o,
{
    match o {
        Option::None => Ok(Option::None),
        Option::Some(e) => Ok(Option::Some(Box::new((**e).replace(rep)?))),
    }
}

impl TypeExprList {
    /// An independent value equal to `self`.
    pub fn duplicate(&self) -> (r: TypeExprList)
        ensures
            r == *self,
        decreases *self,
    {
        match self {
            TypeExprList::Nil => TypeExprList::Nil,
            TypeExprList::Cons(e, rest) => TypeExprList::Cons(
                Box::new((**e).duplicate()),
                Box::new((**rest).duplicate()),
            ),
        }
    }

    /// [`TypeExpr::replace`] applied to every element.
    pub fn replace_each(&self, rep: &TypeExpr) -> (r: Result<TypeExprList, UnsupportedTypeShape>)
        ensures
            r is Ok <==> supported_list(*self),
            r matches Ok(l) ==> l == replaced_list(*self, *rep),
        decreases *self,
    {
        match self {
            TypeExprList::Nil => Ok(TypeExprList::Nil),
            TypeExprList::Cons(e, rest) => Ok(
                TypeExprList::Cons(
                    Box::new((**e).replace(rep)?),
                    Box::new((**rest).replace_each(rep)?),
                ),
            ),
        }
    }
}

impl PathSegment {
    /// An independent value equal to `self`.
    pub fn duplicate(&self) -> (r: PathSegment)
        ensures
            r == *self,
        decreases *self,
    {
        PathSegment { ident: self.ident.clone(), arguments: self.arguments.duplicate() }
    }

    /// Rewrite the segment's arguments; the segment's own name is kept.
    pub fn replace(&self, rep: &TypeExpr) -> (r: Result<PathSegment, UnsupportedTypeShape>)
        ensures
            r is Ok <==> supported_arguments(self.arguments),
            r matches Ok(s) ==> s == (PathSegment {
                ident: self.ident,
                arguments: replaced_arguments(self.arguments, *rep),
            }),
        decreases *self,
    {
        Ok(PathSegment { ident: self.ident.clone(), arguments: self.arguments.replace(rep)? })
    }
}

impl SegmentList {
    /// An independent value equal to `self`.
    pub fn duplicate(&self) -> (r: SegmentList)
        ensures
            r == *self,
        decreases *self,
    {
        match self {
            SegmentList::Nil => SegmentList::Nil,
            SegmentList::Cons(seg, rest) => SegmentList::Cons(
                seg.duplicate(),
                Box::new((**rest).duplicate()),
            ),
        }
    }

    /// [`PathSegment::replace`] applied to every segment.
    pub fn replace_each(&self, rep: &TypeExpr) -> (r: Result<SegmentList, UnsupportedTypeShape>)
        ensures
            r is Ok <==> supported_segments(*self),
            r matches Ok(l) ==> l == replaced_segments(*self, *rep),
        decreases *self,
    {
        match self {
            SegmentList::Nil => Ok(SegmentList::Nil),
            SegmentList::Cons(seg, rest) => Ok(
                SegmentList::Cons(seg.replace(rep)?, Box::new((**rest).replace_each(rep)?)),
            ),
        }
    }
}

impl PathArguments {
    /// An independent value equal to `self`.
    pub fn duplicate(&self) -> (r: PathArguments)
        ensures
            r == *self,
        decreases *self,
    {
        match self {
            PathArguments::Plain => PathArguments::Plain,
            PathArguments::AngleBracketed(args) => PathArguments::AngleBracketed(args.duplicate()),
            PathArguments::Parenthesized(inputs, output) => PathArguments::Parenthesized(
                inputs.duplicate(),
                duplicate_output(output),
            ),
        }
    }

    /// Rewrite every type expression inside the argument list.
    pub fn replace(&self, rep: &TypeExpr) -> (r: Result<PathArguments, UnsupportedTypeShape>)
        ensures
            r is Ok <==> supported_arguments(*self),
            r matches Ok(a) ==> a == replaced_arguments(*self, *rep),
        decreases *self,
    {
        match self {
            PathArguments::Plain => Ok(PathArguments::Plain),
            PathArguments::AngleBracketed(args) => Ok(
                PathArguments::AngleBracketed(args.replace_each(rep)?),
            ),
            PathArguments::Parenthesized(inputs, output) => Ok(
                PathArguments::Parenthesized(inputs.replace_each(rep)?, replace_output(output, rep)?),
            ),
        }
    }
}

impl GenericArgument {
    /// An independent value equal to `self`.
    pub fn duplicate(&self) -> (r: GenericArgument)
        ensures
            r == *self,
        decreases *self,
    {
        match self {
            GenericArgument::Lifetime(s) => GenericArgument::Lifetime(s.clone()),
            GenericArgument::Type(t) => GenericArgument::Type(Box::new((**t).duplicate())),
            GenericArgument::Binding(ident, t) => GenericArgument::Binding(
                ident.clone(),
                Box::new((**t).duplicate()),
            ),
            GenericArgument::Constraint(ident, bounds) => GenericArgument::Constraint(
                ident.clone(),
                bounds.duplicate(),
            ),
            GenericArgument::Const => GenericArgument::Const,
        }
    }

    /// Rewrite the type expressions inside one generic argument; borrow
    /// durations and const-valued arguments are left alone.
    pub fn replace(&self, rep: &TypeExpr) -> (r: Result<GenericArgument, UnsupportedTypeShape>)
        ensures
            r is Ok <==> supported_garg(*self),
            r matches Ok(g) ==> g == replaced_garg(*self, *rep),
        decreases *self,
    {
        match self {
            GenericArgument::Lifetime(s) => Ok(GenericArgument::Lifetime(s.clone())),
            GenericArgument::Type(t) => Ok(GenericArgument::Type(Box::new((**t).replace(rep)?))),
            GenericArgument::Binding(ident, t) => Ok(
                GenericArgument::Binding(ident.clone(), Box::new((**t).replace(rep)?)),
            ),
            GenericArgument::Constraint(ident, bounds) => Ok(
                GenericArgument::Constraint(ident.clone(), bounds.replace_each(rep)?),
            ),
            GenericArgument::Const => Ok(GenericArgument::Const),
        }
    }
}

impl GenericArgumentList {
    /// An independent value equal to `self`.
    pub fn duplicate(&self) -> (r: GenericArgumentList)
        ensures
            r == *self,
        decreases *self,
    {
        match self {
            GenericArgumentList::Nil => GenericArgumentList::Nil,
            GenericArgumentList::Cons(g, rest) => GenericArgumentList::Cons(
                Box::new((**g).duplicate()),
                Box::new((**rest).duplicate()),
            ),
        }
    }

    /// [`GenericArgument::replace`] applied to every argument.
    pub fn replace_each(&self, rep: &TypeExpr) -> (r: Result<
        GenericArgumentList,
        UnsupportedTypeShape,
    >)
        ensures
            r is Ok <==> supported_gargs(*self),
            r matches Ok(l) ==> l == replaced_gargs(*self, *rep),
        decreases *self,
    {
        match self {
            GenericArgumentList::Nil => Ok(GenericArgumentList::Nil),
            GenericArgumentList::Cons(g, rest) => Ok(
                GenericArgumentList::Cons(
                    Box::new((**g).replace(rep)?),
                    Box::new((**rest).replace_each(rep)?),
                ),
            ),
        }
    }
}

impl TypeBound {
    /// An independent value equal to `self`.
    pub fn duplicate(&self) -> (r: TypeBound)
        ensures
            r == *self,
        decreases *self,
    {
        match self {
            TypeBound::Trait(p) => TypeBound::Trait(Box::new((**p).duplicate())),
            TypeBound::Lifetime(s) => TypeBound::Lifetime(s.clone()),
        }
    }

    /// Rewrite a trait bound's path; a borrow-duration bound is left alone.
    pub fn replace(&self, rep: &TypeExpr) -> (r: Result<TypeBound, UnsupportedTypeShape>)
        ensures
            r is Ok <==> supported_bound(*self),
            r matches Ok(b) ==> b == replaced_bound(*self, *rep),
        decreases *self,
    {
        match self {
            TypeBound::Trait(p) => Ok(TypeBound::Trait(Box::new((**p).replace(rep)?))),
            TypeBound::Lifetime(s) => Ok(TypeBound::Lifetime(s.clone())),
        }
    }
}

impl BoundList {
    /// An independent value equal to `self`.
    pub fn duplicate(&self) -> (r: BoundList)
        ensures
            r == *self,
        decreases *self,
    {
        match self {
            BoundList::Nil => BoundList::Nil,
            BoundList::Cons(b, rest) => BoundList::Cons(
                b.duplicate(),
                Box::new((**rest).duplicate()),
            ),
        }
    }

    /// [`TypeBound::replace`] applied to every bound.
    pub fn replace_each(&self, rep: &TypeExpr) -> (r: Result<BoundList, UnsupportedTypeShape>)
        ensures
            r is Ok <==> supported_bounds(*self),
            r matches Ok(l) ==> l == replaced_bounds(*self, *rep),
        decreases *self,
    {
        match self {
            BoundList::Nil => Ok(BoundList::Nil),
            BoundList::Cons(b, rest) => Ok(
                BoundList::Cons(b.replace(rep)?, Box::new((**rest).replace_each(rep)?)),
            ),
        }
    }
}

} // verus!
