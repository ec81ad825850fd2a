//! A lazy sequence view over a copy-on-write collection.
//!
//! Given `Cow<Vec<T>>`, [`CowIter`] hands the elements out one by one as
//! `Cow<T>`: an owned collection yields owned elements, a borrowed one
//! yields borrowed elements.  The walk is single-pass, forward-only and
//! finite.

use vstd::prelude::*;

use crate::cow::Cow;
use crate::cow::Duplicable;

verus! {

/// A single-pass iterator over the elements of a copy-on-write collection.
pub enum CowIter<T> {
    Borrowed(Vec<T>, usize),
    Owned(Vec<T>, usize),
}

impl<T> CowIter<T> {
    /// The elements of the underlying collection.
    pub open spec fn elements(self) -> Seq<T> {
        match self {
            CowIter::Borrowed(items, _) => items@,
            CowIter::Owned(items, _) => items@,
        }
    }

    /// How many elements have been handed out already.
    pub open spec fn position(self) -> int {
        match self {
            CowIter::Borrowed(_, pos) => pos as int,
            CowIter::Owned(_, pos) => pos as int,
        }
    }

    /// Whether the walk hands out owned elements.
    pub open spec fn yields_owned(self) -> bool {
        self is Owned
    }

    /// Begin walking a copy-on-write collection: an owned input is consumed
    /// element by element, a borrowed one is walked by reference.
    pub fn from_cow(i: Cow<Vec<T>>) -> (r: CowIter<T>)
        ensures
            r.elements() == i.value()@,
            r.position() == 0,
            r.yields_owned() == i.is_owned_spec(),
    {
        match i {
            Cow::Owned(items) => CowIter::Owned(items, 0),
            Cow::Borrowed(items) => CowIter::Borrowed(items, 0),
        }
    }
}

impl<T: Duplicable> CowIter<T> {
    /// The next element, wrapped the same way the collection was, or `None`
    /// once the collection is exhausted.
    pub fn next(&mut self) -> (r: Option<Cow<T>>)
        ensures
            final(self).elements() == old(self).elements(),
            final(self).yields_owned() == old(self).yields_owned(),
            old(self).position() < old(self).elements().len() ==> {
                &&& final(self).position() == old(self).position() + 1
                &&& r matches Some(c) && c.value() == old(self).elements()[old(
                    self,
                ).position()] && c.is_owned_spec() == old(self).yields_owned()
            },
            old(self).position() >= old(self).elements().len() ==> {
                &&& final(self).position() == old(self).position()
                &&& r is None
            },
    {
        match self {
            CowIter::Borrowed(items, pos) => {
                if *pos < items.len() {
                    let e = items[*pos].duplicate();
                    *pos = *pos + 1;
                    Some(Cow::Borrowed(e))
                } else {
                    None
                }
            },
            CowIter::Owned(items, pos) => {
                if *pos < items.len() {
                    let e = items[*pos].duplicate();
                    *pos = *pos + 1;
                    Some(Cow::Owned(e))
                } else {
                    None
                }
            },
        }
    }
}

} // verus!
