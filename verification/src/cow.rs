//! The copy-on-write value at the heart of the crate.
//!
//! A [`Cow`] is either a fully owned instance of `T`, or a scoped handle to a
//! `T` that is owned elsewhere.  Duplication of the underlying data is
//! deferred until an owned counterpart is actually demanded, which is what
//! [`Cow::into_owned`] does.  The handle of the borrowed variant is modelled
//! by value: holding `Cow::Borrowed(v)` stands for holding a reference whose
//! referent is `v`, so building a `Borrowed` never counts as duplicating the
//! data, while [`Duplicable::duplicate`] marks every place where data really
//! is copied.

use vstd::prelude::*;

verus! {

/// A value that can be duplicated without being changed.
///
/// This is the capability demanded wherever a butchering method may have to
/// copy data: producing the owned counterpart of a borrowed value, or copying
/// a field outright.
pub trait Duplicable: Sized {
    /// Produce a fresh, independent value equal to `self`.
    fn duplicate(&self) -> (r: Self)
        ensures
            r == *self,
    ;
}

/// A copy-on-write value: fully owned, or a scoped handle to data owned
/// elsewhere.
#[derive(Debug)]
pub enum Cow<T> {
    Owned(T),
    Borrowed(T),
}

impl<T> Cow<T> {
    /// The underlying value, whichever side owns it.
    pub open spec fn value(self) -> T {
        match self {
            Cow::Owned(v) => v,
            Cow::Borrowed(v) => v,
        }
    }

    pub open spec fn is_owned_spec(self) -> bool {
        self is Owned
    }

    pub fn is_owned(&self) -> (r: bool)
        ensures
            r == self.is_owned_spec(),
    {
        match self {
            Cow::Owned(_) => true,
            Cow::Borrowed(_) => false,
        }
    }

    /// Read access to the underlying value, without any duplication.
    pub fn borrow_value(&self) -> (r: &T)
        ensures
            *r == self.value(),
    {
        match self {
            Cow::Owned(v) => v,
            Cow::Borrowed(v) => v,
        }
    }

    /// Consume the handle itself, handing out the value it stands for.
    pub fn into_value(self) -> (r: T)
        ensures
            r == self.value(),
    {
        match self {
            Cow::Owned(v) => v,
            Cow::Borrowed(v) => v,
        }
    }
}

impl<T: Duplicable> Cow<T> {
    /// The owned counterpart of the value.  An owned input is passed through;
    /// a borrowed one is duplicated.
    pub fn into_owned(self) -> (r: T)
        ensures
            r == self.value(),
    {
        match self {
            Cow::Owned(v) => v,
            Cow::Borrowed(v) => v.duplicate(),
        }
    }
}

impl<T: PartialEq> PartialEq for Cow<T> {
    /// Two copy-on-write values compare by their underlying values; which
    /// side owns the data plays no part.
    fn eq(&self, other: &Self) -> (r: bool) {
        self.borrow_value() == other.borrow_value()
    }
}

impl<T: PartialEq> Eq for Cow<T> {

}

impl<T: PartialEq> vstd::std_specs::cmp::PartialEqSpecImpl for Cow<T> {
    open spec fn obeys_eq_spec() -> bool {
        <T as vstd::std_specs::cmp::PartialEqSpec>::obeys_eq_spec()
    }

    open spec fn eq_spec(&self, other: &Self) -> bool {
        <T as vstd::std_specs::cmp::PartialEqSpec>::eq_spec(&self.value(), &other.value())
    }
}

impl Duplicable for bool {
    fn duplicate(&self) -> (r: Self) {
        *self
    }
}

impl Duplicable for char {
    fn duplicate(&self) -> (r: Self) {
        *self
    }
}

impl Duplicable for u32 {
    fn duplicate(&self) -> (r: Self) {
        *self
    }
}

impl Duplicable for u64 {
    fn duplicate(&self) -> (r: Self) {
        *self
    }
}

impl Duplicable for i64 {
    fn duplicate(&self) -> (r: Self) {
        *self
    }
}

impl Duplicable for usize {
    fn duplicate(&self) -> (r: Self) {
        *self
    }
}

impl<T: Duplicable> Duplicable for Box<T> {
    fn duplicate(&self) -> (r: Self) {
        Box::new((**self).duplicate())
    }
}

impl<T: Duplicable> Duplicable for Cow<T> {
    fn duplicate(&self) -> (r: Self) {
        match self {
            Cow::Owned(v) => Cow::Owned(v.duplicate()),
            Cow::Borrowed(v) => Cow::Borrowed(v.duplicate()),
        }
    }
}

impl<T: Duplicable> Duplicable for Option<T> {
    fn duplicate(&self) -> (r: Self) {
        match self {
            Option::None => Option::None,
            Option::Some(v) => Option::Some(v.duplicate()),
        }
    }
}

} // verus!
