//! Butchering copy-on-write data.
//!
//! Destructuring a value that sits inside a copy-on-write wrapper ordinarily
//! forces a choice: either match on the wrapper twice (once for the owned
//! case, once for the borrowed one) or duplicate the whole value up front.
//! This crate removes that boilerplate.  A source declaration — a record or a
//! tagged union — is turned into a *butchered* companion declaration whose
//! fields carry copy-on-write values of their own, together with a pair of
//! conversions: [`Butcher::butcher`] takes the wrapped source value apart
//! field by field, and [`Butcher::unbutcher`] rebuilds an owned source value
//! from the pieces.
//!
//! The crate has two halves.
//!
//! * The run-time half: [`cow::Cow`] and the butchering methods of
//!   [`methods`], which say, per field, how a view field is derived from a
//!   source field, separately for the owned and the borrowed case; plus the
//!   helpers [`unnest::UnnestCow`], [`as_deref::AsDerefCow`] and
//!   [`iterator::CowIter`].
//! * The declaration half: a model of type declarations ([`reader`]), the
//!   signature builder and self-reference rewriter ([`signature`],
//!   [`type_expr`]), and the synthesis of the butchered companion declaration
//!   ([`synthesis`]).

use vstd::prelude::*;

pub mod as_deref;
pub mod butchered;
pub mod cow;
pub mod iterator;
pub mod methods;
pub mod reader;
pub mod signature;
pub mod strategy;
pub mod synthesis;
pub mod type_expr;
pub mod unnest;

use crate::cow::Cow;

verus! {

/// A type whose copy-on-write wrapper can be taken apart field by field.
///
/// `butcher` turns a wrapped value into the butchered companion value;
/// `unbutcher` rebuilds an owned source value from it.  The two spec
/// functions pin both conversions down exactly, and every implementation
/// must also discharge [`Butcher::butcher_inverts`]: rebuilding what was
/// taken apart gives back the underlying value, whichever side owned it.
pub trait Butcher: Sized {
    /// The butchered companion type.
    type Output;

    /// What butchering returns, as a function of the wrapped input.
    spec fn butcher_spec(this: Cow<Self>) -> Self::Output;

    /// The owned source value a butchered value stands for.
    spec fn unbutcher_spec(this: Self::Output) -> Self;

    /// Take a wrapped value apart into the butchered companion value.
    fn butcher(this: Cow<Self>) -> (r: Self::Output)
        ensures
            r == Self::butcher_spec(this),
    ;

    /// Rebuild an owned source value from a butchered one.
    fn unbutcher(this: Self::Output) -> (r: Self)
        ensures
            r == Self::unbutcher_spec(this),
    ;

    /// The round-trip law every implementation owes its callers: butchering
    /// never loses the underlying value.
    proof fn butcher_inverts(this: Cow<Self>)
        ensures
            Self::unbutcher_spec(Self::butcher_spec(this)) == this.value(),
    ;
}

/// Round trip: for every source value `v`, unbutchering the butchered form
/// of `Cow::Owned(v)` gives back exactly `v`.
pub proof fn owned_round_trip<B: Butcher>(v: B)
    ensures
        B::unbutcher_spec(B::butcher_spec(Cow::Owned(v))) == v,
{
    B::butcher_inverts(Cow::Owned(v));
}

/// The same holds of a borrowed input: the rebuilt owned value equals the
/// borrowed one.
pub proof fn borrowed_round_trip<B: Butcher>(v: B)
    ensures
        B::unbutcher_spec(B::butcher_spec(Cow::Borrowed(v))) == v,
{
    B::butcher_inverts(Cow::Borrowed(v));
}

} // verus!
