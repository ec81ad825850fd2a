//! Collapsing a nested copy-on-write layer.
//!
//! Butchering a declaration that already holds a [`Cow`] in one of its fields
//! yields a field of type `Cow<Cow<T>>`.  [`UnnestCow`] collapses such a
//! value back to a single layer.

use vstd::prelude::*;

use crate::cow::Cow;

verus! {

/// Collapse `Cow<Cow<T>>` to `Cow<T>`.
///
/// An owned outer layer hands out the inner value as it stands; a borrowed
/// outer layer borrows straight through to the inner value.  Either way the
/// underlying value is untouched: the result is owned exactly when both
/// layers were owned, and duplication, if the caller later asks for an owned
/// counterpart, happens only at the innermost value.
pub fn unnest_cow<T>(this: Cow<Cow<T>>) -> (r: Cow<T>)
    ensures
        r.value() == this.value().value(),
        r.is_owned_spec() == (this.is_owned_spec() && this.value().is_owned_spec()),
{
    match this {
        Cow::Owned(inner) => inner,
        Cow::Borrowed(inner) => Cow::Borrowed(inner.into_value()),
    }
}

/// Allows to unnest a [`Cow`].
///
/// The trait is implemented for each `Cow<Cow<T>>` and provides the
/// [`UnnestCow::unnest`] method, so that the collapse reads as a method call
/// at the use site.
pub trait UnnestCow<T>: Sized {
    /// The underlying value, once both layers are seen through.
    spec fn unnested_value(self) -> T;

    /// Whether unnesting yields an owned value.
    spec fn unnested_owned(self) -> bool;

    /// Flattens the `Cow`.
    fn unnest(self) -> (r: Cow<T>)
        ensures
            r.value() == self.unnested_value(),
            r.is_owned_spec() == self.unnested_owned(),
    ;
}

impl<T> UnnestCow<T> for Cow<Cow<T>> {
    open spec fn unnested_value(self) -> T {
        self.value().value()
    }

    open spec fn unnested_owned(self) -> bool {
        self.is_owned_spec() && self.value().is_owned_spec()
    }

    fn unnest(self) -> (r: Cow<T>) {
        unnest_cow(self)
    }
}

} // verus!
