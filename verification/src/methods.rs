//! Different ways to butcher a field.
//!
//! Each butchering method is a marker struct implementing
//! [`ButcheringMethod`]: a definition of how the output data is produced
//! from the input — what output type, what to do when the input is owned and
//! what to do when it is borrowed.  [`ButcherField`] ties one such method to
//! a specific field of a butchered declaration.
//!
//! A borrowed input is modelled by the value it refers to (see [`crate::cow`]),
//! so both operations take the input by value; which of the two is called
//! records which side owned the data.

use vstd::prelude::*;

use crate::Butcher;
use crate::cow::Cow;
use crate::cow::Duplicable;

verus! {

/// Unifies the behaviour of the different butchering methods.
///
/// `T` is the input type, which can be either owned or borrowed.  The
/// `from_owned` and `from_borrowed` operations produce the output from the
/// respective side; the two spec functions pin each down exactly.
pub trait ButcheringMethod<T>: Sized {
    /// The output type.
    type Output;

    /// What the method yields for an owned input.
    spec fn owned_output(i: T) -> Self::Output;

    /// What the method yields for a borrowed input.
    spec fn borrowed_output(i: T) -> Self::Output;

    /// Create an output from an owned input.
    fn from_owned(i: T) -> (r: Self::Output)
        ensures
            r == Self::owned_output(i),
    ;

    /// Create an output from a borrowed input.
    fn from_borrowed(i: T) -> (r: Self::Output)
        ensures
            r == Self::borrowed_output(i),
    ;
}

/// A value that stands both for itself and for a borrowed target it can be
/// seen through — the way an owned text buffer stands for the text slice it
/// holds.
///
/// `into_target` gives the target of an owned value; rebuilding the value
/// from its target must give back exactly the original, which is what
/// [`BorrowsThrough::target_inverts`] demands.
pub trait BorrowsThrough: Sized {
    /// The type the value borrows through to.
    type Target;

    /// The target a value stands for.
    spec fn target_spec(self) -> Self::Target;

    /// The value rebuilt from an owned target.
    spec fn from_target_spec(t: Self::Target) -> Self;

    /// Rebuilding from the target loses nothing.
    proof fn target_inverts(self)
        ensures
            Self::from_target_spec(self.target_spec()) == self,
    ;

    /// Convert the value into its target.
    fn into_target(self) -> (r: Self::Target)
        ensures
            r == self.target_spec(),
    ;

    /// Rebuild the value from an owned target.
    fn from_target(t: Self::Target) -> (r: Self)
        ensures
            r == Self::from_target_spec(t),
    ;
}

/// The regular method.
///
/// Transforms a field of type `T` into a `Cow<T>`.  It requires that `T` is
/// [`Duplicable`] — the owned counterpart must be obtainable later — but
/// never duplicates anything itself.
pub struct Regular;

impl<T: Duplicable> ButcheringMethod<T> for Regular {
    type Output = Cow<T>;

    open spec fn owned_output(i: T) -> Cow<T> {
        Cow::Owned(i)
    }

    open spec fn borrowed_output(i: T) -> Cow<T> {
        Cow::Borrowed(i)
    }

    /// Create an `Owned` variant, containing the input.
    fn from_owned(i: T) -> (r: Cow<T>) {
        Cow::Owned(i)
    }

    /// Create a `Borrowed` variant, wrapping the handle as it stands.
    fn from_borrowed(i: T) -> (r: Cow<T>) {
        Cow::Borrowed(i)
    }
}

/// The flatten method.
///
/// Transforms a field whose type borrows through to a target — say an owned
/// text buffer seen as text — into a `Cow` of that target, so that users
/// deal with the target form directly.
pub struct Flatten;

impl<T: BorrowsThrough> ButcheringMethod<T> for Flatten where T::Target: Duplicable {
    type Output = Cow<<T as BorrowsThrough>::Target>;

    open spec fn owned_output(i: T) -> Cow<<T as BorrowsThrough>::Target> {
        Cow::Owned(i.target_spec())
    }

    open spec fn borrowed_output(i: T) -> Cow<<T as BorrowsThrough>::Target> {
        Cow::Borrowed(i.target_spec())
    }

    /// Convert the input into its target and wrap it as owned.
    fn from_owned(i: T) -> (r: Cow<<T as BorrowsThrough>::Target>) {
        Cow::Owned(i.into_target())
    }

    /// Wrap a borrowed handle to the target; nothing is duplicated.
    fn from_borrowed(i: T) -> (r: Cow<<T as BorrowsThrough>::Target>) {
        Cow::Borrowed(i.into_target())
    }
}

/// The unbox method.
///
/// Gets rid of the indirection that is often used to build recursive types:
/// a field of type `Box<T>` comes out as `Cow<T>`.
pub struct Unbox;

impl<T: Duplicable> ButcheringMethod<Box<T>> for Unbox {
    type Output = Cow<T>;

    open spec fn owned_output(i: Box<T>) -> Cow<T> {
        Cow::Owned(*i)
    }

    open spec fn borrowed_output(i: Box<T>) -> Cow<T> {
        Cow::Borrowed(*i)
    }

    /// Unwrap the indirection and wrap the inner value as owned.
    fn from_owned(i: Box<T>) -> (r: Cow<T>) {
        Cow::Owned(*i)
    }

    /// See through the indirection and wrap the inner value as borrowed.
    fn from_borrowed(i: Box<T>) -> (r: Cow<T>) {
        Cow::Borrowed(*i)
    }
}

/// The copy method.
///
/// Does not output any [`Cow`] at all.  Instead it moves or duplicates the
/// input: an owned input is passed through, a borrowed one is duplicated.
/// The output is independent of the input either way.
pub struct Copy;

impl<T: Duplicable> ButcheringMethod<T> for Copy {
    type Output = T;

    open spec fn owned_output(i: T) -> T {
        i
    }

    open spec fn borrowed_output(i: T) -> T {
        i
    }

    /// Move the data.
    fn from_owned(i: T) -> (r: T) {
        i
    }

    /// Duplicate the borrowed data.
    fn from_borrowed(i: T) -> (r: T) {
        i.duplicate()
    }
}

/// The rebutcher method.
///
/// Butchers again the field which is marked as such: the output is the
/// field type's own butchered companion, owned or borrowed as the input was.
pub struct Rebutcher;

impl<T: Butcher + Duplicable> ButcheringMethod<T> for Rebutcher {
    type Output = <T as Butcher>::Output;

    open spec fn owned_output(i: T) -> <T as Butcher>::Output {
        T::butcher_spec(Cow::Owned(i))
    }

    open spec fn borrowed_output(i: T) -> <T as Butcher>::Output {
        T::butcher_spec(Cow::Borrowed(i))
    }

    fn from_owned(i: T) -> (r: <T as Butcher>::Output) {
        T::butcher(Cow::Owned(i))
    }

    fn from_borrowed(i: T) -> (r: <T as Butcher>::Output) {
        T::butcher(Cow::Borrowed(i))
    }
}

/// The behaviour of one specific field of a butchered declaration.
///
/// Implementors just have to name the butchering method; the two operations
/// delegate to it.
pub trait ButcherField<T>: Sized {
    /// The method which will be used.
    type Method: ButcheringMethod<T>;

    fn from_owned(i: T) -> (r: <Self::Method as ButcheringMethod<T>>::Output)
        ensures
            r == <Self::Method as ButcheringMethod<T>>::owned_output(i),
    {
        <Self::Method as ButcheringMethod<T>>::from_owned(i)
    }

    fn from_borrowed(i: T) -> (r: <Self::Method as ButcheringMethod<T>>::Output)
        ensures
            r == <Self::Method as ButcheringMethod<T>>::borrowed_output(i),
    {
        <Self::Method as ButcheringMethod<T>>::from_borrowed(i)
    }
}

/// No copy on borrow: the regular method wraps a borrowed field as a
/// borrowed handle to the very same value; the data is not duplicated.
pub proof fn no_copy_on_borrow_regular<T: Duplicable>(v: T)
    ensures
        !<Regular as ButcheringMethod<T>>::borrowed_output(v).is_owned_spec(),
        <Regular as ButcheringMethod<T>>::borrowed_output(v).value() == v,
{
}

/// No copy on borrow: the flatten method wraps a borrowed field as a
/// borrowed handle to its target; the data is not duplicated.
pub proof fn no_copy_on_borrow_flatten<T: BorrowsThrough>(v: T) where T::Target: Duplicable
    ensures
        !<Flatten as ButcheringMethod<T>>::borrowed_output(v).is_owned_spec(),
        <Flatten as ButcheringMethod<T>>::borrowed_output(v).value() == v.target_spec(),
{
}

/// No copy on borrow: the unbox method wraps a borrowed field as a borrowed
/// handle to the value behind the indirection; the data is not duplicated.
pub proof fn no_copy_on_borrow_unbox<T: Duplicable>(v: Box<T>)
    ensures
        !<Unbox as ButcheringMethod<Box<T>>>::borrowed_output(v).is_owned_spec(),
        <Unbox as ButcheringMethod<Box<T>>>::borrowed_output(v).value() == *v,
{
}

/// Copy-strategy independence: whichever side owned the input, the copy
/// method yields the bare input value itself, as a fresh owned value.
pub proof fn copy_output_independent<T: Duplicable>(v: T)
    ensures
        <Copy as ButcheringMethod<T>>::borrowed_output(v) == <Copy as ButcheringMethod<
            T,
        >>::owned_output(v),
        <Copy as ButcheringMethod<T>>::owned_output(v) == v,
{
}

} // verus!
