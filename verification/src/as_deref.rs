//! Removing an indirection level for data in a [`Cow`].
//!
//! A value that borrows through to a target — an owned text buffer standing
//! for the text it holds — can be collapsed while still wrapped: `Cow<T>`
//! becomes `Cow<T::Target>`.  The owned path converts the value into the
//! target's owned form; the borrowed path re-borrows straight to the
//! target.  Either way nothing is duplicated, and which side owns the data
//! is kept.

use vstd::prelude::*;

use crate::cow::Cow;
use crate::methods::BorrowsThrough;

verus! {

/// Collapse one indirection level: `Cow<T>` into `Cow<T::Target>`.
pub fn as_deref_cow<T: BorrowsThrough>(this: Cow<T>) -> (r: Cow<<T as BorrowsThrough>::Target>)
    ensures
        r.value() == this.value().target_spec(),
        r.is_owned_spec() == this.is_owned_spec(),
{
    match this {
        Cow::Owned(v) => Cow::Owned(v.into_target()),
        Cow::Borrowed(v) => Cow::Borrowed(v.into_target()),
    }
}

/// The method form of the collapse, implemented for each `Cow<T>` whose
/// `T` borrows through to a target.
pub trait AsDerefCow<Target>: Sized {
    /// The target value the collapse yields.
    spec fn deref_value(self) -> Target;

    /// Whether the collapse yields an owned value.
    spec fn deref_owned(self) -> bool;

    /// Collapse one indirection level.
    fn as_deref(self) -> (r: Cow<Target>)
        ensures
            r.value() == self.deref_value(),
            r.is_owned_spec() == self.deref_owned(),
    ;
}

impl<T: BorrowsThrough> AsDerefCow<<T as BorrowsThrough>::Target> for Cow<T> {
    open spec fn deref_value(self) -> <T as BorrowsThrough>::Target {
        self.value().target_spec()
    }

    open spec fn deref_owned(self) -> bool {
        self.is_owned_spec()
    }

    fn as_deref(self) -> (r: Cow<<T as BorrowsThrough>::Target>) {
        as_deref_cow(self)
    }
}

} // verus!
