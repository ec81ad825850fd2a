//! Butchered companions for representative declarations, written out field
//! by field.
//!
//! Each source type below carries the companion declaration and the
//! [`Butcher`] implementation that the synthesis of [`crate::synthesis`]
//! prescribes for it, one field marker per field.  Together they exercise
//! every butchering method: [`Sample`] uses all five on a record, [`Event`]
//! butchers a tagged union, and [`Chain`] a self-referential record.

use vstd::prelude::*;

use crate::Butcher;
use crate::cow::Cow;
use crate::cow::Duplicable;
use crate::methods::BorrowsThrough;
use crate::methods::ButcherField;
use crate::methods::Flatten;
use crate::methods::Rebutcher;
use crate::methods::Regular;
use crate::methods::Unbox;

verus! {

/// A record butchered inside another record.
#[derive(Debug, PartialEq, Eq, Clone)]
pub struct Inner {
    pub value: u64,
}

/// The butchered companion of [`Inner`].
#[derive(Debug, PartialEq)]
pub struct ButcheredInner {
    pub value: Cow<u64>,
}

impl Duplicable for Inner {
    fn duplicate(&self) -> (r: Self) {
        Inner { value: self.value }
    }
}

/// The field marker of `Inner::value`.
pub struct InnerValueField;

impl ButcherField<u64> for InnerValueField {
    type Method = Regular;
}

impl Butcher for Inner {
    type Output = ButcheredInner;

    open spec fn butcher_spec(this: Cow<Inner>) -> ButcheredInner {
        match this {
            Cow::Owned(i) => ButcheredInner { value: Cow::Owned(i.value) },
            Cow::Borrowed(i) => ButcheredInner { value: Cow::Borrowed(i.value) },
        }
    }

    open spec fn unbutcher_spec(this: ButcheredInner) -> Inner {
        Inner { value: this.value.value() }
    }

    fn butcher(this: Cow<Inner>) -> (r: ButcheredInner) {
        match this {
            Cow::Owned(Inner { value }) => {
                let r = ButcheredInner { value: InnerValueField::from_owned(value) };
                proof {
                    assert(r.value == <Regular as crate::methods::ButcheringMethod<
                        u64,
                    >>::owned_output(value));
                }
                r
            },
            Cow::Borrowed(Inner { value }) => {
                let r = ButcheredInner { value: InnerValueField::from_borrowed(value) };
                proof {
                    assert(r.value == <Regular as crate::methods::ButcheringMethod<
                        u64,
                    >>::borrowed_output(value));
                }
                r
            },
        }
    }

    fn unbutcher(this: ButcheredInner) -> (r: Inner) {
        Inner { value: this.value.into_owned() }
    }

    proof fn butcher_inverts(this: Cow<Inner>) {
    }
}

/// A tag wrapping its bare numeric code; it borrows through to the code, the
/// way an owned text buffer borrows through to the text it holds.
#[derive(Debug, PartialEq, Eq, Clone)]
pub struct Tag {
    pub code: u64,
}

impl BorrowsThrough for Tag {
    type Target = u64;

    open spec fn target_spec(self) -> u64 {
        self.code
    }

    open spec fn from_target_spec(t: u64) -> Tag {
        Tag { code: t }
    }

    proof fn target_inverts(self) {
    }

    fn into_target(self) -> (r: u64) {
        self.code
    }

    fn from_target(t: u64) -> (r: Tag) {
        Tag { code: t }
    }
}

/// A record exercising every butchering method on one field each.
#[derive(Debug, PartialEq, Eq, Clone)]
pub struct Sample {
    pub id: u64,
    pub plain: u64,
    pub tag: Tag,
    pub boxed: Box<u64>,
    pub inner: Inner,
}

/// The butchered companion of [`Sample`].
#[derive(Debug, PartialEq)]
pub struct ButcheredSample {
    pub id: u64,
    pub plain: Cow<u64>,
    pub tag: Cow<u64>,
    pub boxed: Cow<u64>,
    pub inner: ButcheredInner,
}

/// The field marker of `Sample::id`.
pub struct SampleIdField;

impl ButcherField<u64> for SampleIdField {
    type Method = crate::methods::Copy;
}

/// The field marker of `Sample::plain`.
pub struct SamplePlainField;

impl ButcherField<u64> for SamplePlainField {
    type Method = Regular;
}

/// The field marker of `Sample::tag`.
pub struct SampleTagField;

impl ButcherField<Tag> for SampleTagField {
    type Method = Flatten;
}

/// The field marker of `Sample::boxed`.
pub struct SampleBoxedField;

impl ButcherField<Box<u64>> for SampleBoxedField {
    type Method = Unbox;
}

/// The field marker of `Sample::inner`.
pub struct SampleInnerField;

impl ButcherField<Inner> for SampleInnerField {
    type Method = Rebutcher;
}

impl Butcher for Sample {
    type Output = ButcheredSample;

    open spec fn butcher_spec(this: Cow<Sample>) -> ButcheredSample {
        match this {
            Cow::Owned(s) => ButcheredSample {
                id: s.id,
                plain: Cow::Owned(s.plain),
                tag: Cow::Owned(s.tag.target_spec()),
                boxed: Cow::Owned(*s.boxed),
                inner: Inner::butcher_spec(Cow::Owned(s.inner)),
            },
            Cow::Borrowed(s) => ButcheredSample {
                id: s.id,
                plain: Cow::Borrowed(s.plain),
                tag: Cow::Borrowed(s.tag.target_spec()),
                boxed: Cow::Borrowed(*s.boxed),
                inner: Inner::butcher_spec(Cow::Borrowed(s.inner)),
            },
        }
    }

    open spec fn unbutcher_spec(this: ButcheredSample) -> Sample {
        Sample {
            id: this.id,
            plain: this.plain.value(),
            tag: Tag::from_target_spec(this.tag.value()),
            boxed: Box::new(this.boxed.value()),
            inner: Inner::unbutcher_spec(this.inner),
        }
    }

    fn butcher(this: Cow<Sample>) -> (r: ButcheredSample) {
        match this {
            Cow::Owned(Sample { id, plain, tag, boxed, inner }) => ButcheredSample {
                id: SampleIdField::from_owned(id),
                plain: SamplePlainField::from_owned(plain),
                tag: SampleTagField::from_owned(tag),
                boxed: SampleBoxedField::from_owned(boxed),
                inner: SampleInnerField::from_owned(inner),
            },
            Cow::Borrowed(Sample { id, plain, tag, boxed, inner }) => ButcheredSample {
                id: SampleIdField::from_borrowed(id),
                plain: SamplePlainField::from_borrowed(plain),
                tag: SampleTagField::from_borrowed(tag),
                boxed: SampleBoxedField::from_borrowed(boxed),
                inner: SampleInnerField::from_borrowed(inner),
            },
        }
    }

    fn unbutcher(this: ButcheredSample) -> (r: Sample) {
        Sample {
            id: this.id,
            plain: this.plain.into_owned(),
            tag: Tag::from_target(this.tag.into_owned()),
            boxed: Box::new(this.boxed.into_owned()),
            inner: Inner::unbutcher(this.inner),
        }
    }

    proof fn butcher_inverts(this: Cow<Sample>) {
        Tag::target_inverts(this.value().tag);
        Inner::butcher_inverts(Cow::Owned(this.value().inner));
        Inner::butcher_inverts(Cow::Borrowed(this.value().inner));
    }
}

/// A tagged union to butcher: three variants of three different shapes.
#[derive(Debug, PartialEq, Eq, Clone)]
pub enum Event {
    Load,
    Key(char),
    Click { x: i64, y: i64 },
}

/// The butchered companion of [`Event`]: one variant per source variant,
/// with the same payload shape.
#[derive(Debug, PartialEq)]
pub enum ButcheredEvent {
    Load,
    Key(Cow<char>),
    Click { x: Cow<i64>, y: Cow<i64> },
}

/// The field marker of the payload of `Event::Key`.
pub struct EventKeyField;

impl ButcherField<char> for EventKeyField {
    type Method = Regular;
}

/// The field marker of `Event::Click::x`.
pub struct EventClickXField;

impl ButcherField<i64> for EventClickXField {
    type Method = Regular;
}

/// The field marker of `Event::Click::y`.
pub struct EventClickYField;

impl ButcherField<i64> for EventClickYField {
    type Method = Regular;
}

impl Butcher for Event {
    type Output = ButcheredEvent;

    open spec fn butcher_spec(this: Cow<Event>) -> ButcheredEvent {
        match this {
            Cow::Owned(e) => match e {
                Event::Load => ButcheredEvent::Load,
                Event::Key(k) => ButcheredEvent::Key(Cow::Owned(k)),
                Event::Click { x, y } => ButcheredEvent::Click {
                    x: Cow::Owned(x),
                    y: Cow::Owned(y),
                },
            },
            Cow::Borrowed(e) => match e {
                Event::Load => ButcheredEvent::Load,
                Event::Key(k) => ButcheredEvent::Key(Cow::Borrowed(k)),
                Event::Click { x, y } => ButcheredEvent::Click {
                    x: Cow::Borrowed(x),
                    y: Cow::Borrowed(y),
                },
            },
        }
    }

    open spec fn unbutcher_spec(this: ButcheredEvent) -> Event {
        match this {
            ButcheredEvent::Load => Event::Load,
            ButcheredEvent::Key(k) => Event::Key(k.value()),
            ButcheredEvent::Click { x, y } => Event::Click { x: x.value(), y: y.value() },
        }
    }

    fn butcher(this: Cow<Event>) -> (r: ButcheredEvent) {
        match this {
            Cow::Owned(e) => match e {
                Event::Load => ButcheredEvent::Load,
                Event::Key(k) => {
                    let c = EventKeyField::from_owned(k);
                    proof {
                        assert(c == <Regular as crate::methods::ButcheringMethod<
                            char,
                        >>::owned_output(k));
                    }
                    ButcheredEvent::Key(c)
                },
                Event::Click { x, y } => {
                    let cx = EventClickXField::from_owned(x);
                    let cy = EventClickYField::from_owned(y);
                    proof {
                        assert(cx == <Regular as crate::methods::ButcheringMethod<
                            i64,
                        >>::owned_output(x));
                        assert(cy == <Regular as crate::methods::ButcheringMethod<
                            i64,
                        >>::owned_output(y));
                    }
                    ButcheredEvent::Click { x: cx, y: cy }
                },
            },
            Cow::Borrowed(e) => match e {
                Event::Load => ButcheredEvent::Load,
                Event::Key(k) => {
                    let c = EventKeyField::from_borrowed(k);
                    proof {
                        assert(c == <Regular as crate::methods::ButcheringMethod<
                            char,
                        >>::borrowed_output(k));
                    }
                    ButcheredEvent::Key(c)
                },
                Event::Click { x, y } => {
                    let cx = EventClickXField::from_borrowed(x);
                    let cy = EventClickYField::from_borrowed(y);
                    proof {
                        assert(cx == <Regular as crate::methods::ButcheringMethod<
                            i64,
                        >>::borrowed_output(x));
                        assert(cy == <Regular as crate::methods::ButcheringMethod<
                            i64,
                        >>::borrowed_output(y));
                    }
                    ButcheredEvent::Click { x: cx, y: cy }
                },
            },
        }
    }

    fn unbutcher(this: ButcheredEvent) -> (r: Event) {
        match this {
            ButcheredEvent::Load => Event::Load,
            ButcheredEvent::Key(k) => Event::Key(k.into_owned()),
            ButcheredEvent::Click { x, y } => Event::Click {
                x: x.into_owned(),
                y: y.into_owned(),
            },
        }
    }

    proof fn butcher_inverts(this: Cow<Event>) {
    }
}

/// Which variant of [`Event`] a value is.
pub open spec fn event_discriminant(e: Event) -> int {
    match e {
        Event::Load => 0,
        Event::Key(_) => 1,
        Event::Click { .. } => 2,
    }
}

/// Which variant of [`ButcheredEvent`] a value is.
pub open spec fn butchered_event_discriminant(e: ButcheredEvent) -> int {
    match e {
        ButcheredEvent::Load => 0,
        ButcheredEvent::Key(_) => 1,
        ButcheredEvent::Click { .. } => 2,
    }
}

/// Discriminant preservation: butchering a tagged union, owned or borrowed,
/// yields a value of the mirrored variant of the input's variant.
pub proof fn butcher_preserves_discriminant(this: Cow<Event>)
    ensures
        butchered_event_discriminant(Event::butcher_spec(this)) == event_discriminant(
            this.value(),
        ),
{
}

/// A self-referential record: the self-typed field sits behind an
/// indirection.
#[derive(Debug, PartialEq, Eq)]
pub struct Chain {
    pub val: u64,
    pub next: Option<Box<Chain>>,
}

/// The butchered companion of [`Chain`].
#[derive(Debug, PartialEq)]
pub struct ButcheredChain {
    pub val: Cow<u64>,
    pub next: Cow<Option<Box<Chain>>>,
}

impl Duplicable for Chain {
    fn duplicate(&self) -> (r: Self)
        decreases *self,
    {
        let next = match &self.next {
            Option::None => Option::None,
            Option::Some(b) => Option::Some(Box::new((**b).duplicate())),
        };
        Chain { val: self.val, next }
    }
}

/// The field marker of `Chain::val`.
pub struct ChainValField;

impl ButcherField<u64> for ChainValField {
    type Method = Regular;
}

/// The field marker of `Chain::next`.
pub struct ChainNextField;

impl ButcherField<Option<Box<Chain>>> for ChainNextField {
    type Method = Regular;
}

impl Butcher for Chain {
    type Output = ButcheredChain;

    open spec fn butcher_spec(this: Cow<Chain>) -> ButcheredChain {
        match this {
            Cow::Owned(c) => ButcheredChain {
                val: Cow::Owned(c.val),
                next: Cow::Owned(c.next),
            },
            Cow::Borrowed(c) => ButcheredChain {
                val: Cow::Borrowed(c.val),
                next: Cow::Borrowed(c.next),
            },
        }
    }

    open spec fn unbutcher_spec(this: ButcheredChain) -> Chain {
        Chain { val: this.val.value(), next: this.next.value() }
    }

    fn butcher(this: Cow<Chain>) -> (r: ButcheredChain) {
        match this {
            Cow::Owned(Chain { val, next }) => {
                let r = ButcheredChain {
                    val: ChainValField::from_owned(val),
                    next: ChainNextField::from_owned(next),
                };
                proof {
                    assert(r.val == <Regular as crate::methods::ButcheringMethod<
                        u64,
                    >>::owned_output(val));
                    assert(r.next == <Regular as crate::methods::ButcheringMethod<
                        Option<Box<Chain>>,
                    >>::owned_output(next));
                }
                r
            },
            Cow::Borrowed(Chain { val, next }) => {
                let r = ButcheredChain {
                    val: ChainValField::from_borrowed(val),
                    next: ChainNextField::from_borrowed(next),
                };
                proof {
                    assert(r.val == <Regular as crate::methods::ButcheringMethod<
                        u64,
                    >>::borrowed_output(val));
                    assert(r.next == <Regular as crate::methods::ButcheringMethod<
                        Option<Box<Chain>>,
                    >>::borrowed_output(next));
                }
                r
            },
        }
    }

    fn unbutcher(this: ButcheredChain) -> (r: Chain) {
        Chain { val: this.val.into_owned(), next: this.next.into_owned() }
    }

    proof fn butcher_inverts(this: Cow<Chain>) {
    }
}

/// A record that already holds a copy-on-write field.  Butchering it nests
/// two copy-on-write layers in the companion, which [`crate::unnest`]
/// collapses again.
#[derive(Debug, PartialEq)]
pub struct Note {
    pub text: Cow<u64>,
}

/// The butchered companion of [`Note`].
#[derive(Debug, PartialEq)]
pub struct ButcheredNote {
    pub text: Cow<Cow<u64>>,
}

/// The field marker of `Note::text`.
pub struct NoteTextField;

impl ButcherField<Cow<u64>> for NoteTextField {
    type Method = Regular;
}

impl Butcher for Note {
    type Output = ButcheredNote;

    open spec fn butcher_spec(this: Cow<Note>) -> ButcheredNote {
        match this {
            Cow::Owned(n) => ButcheredNote { text: Cow::Owned(n.text) },
            Cow::Borrowed(n) => ButcheredNote { text: Cow::Borrowed(n.text) },
        }
    }

    open spec fn unbutcher_spec(this: ButcheredNote) -> Note {
        Note { text: this.text.value() }
    }

    fn butcher(this: Cow<Note>) -> (r: ButcheredNote) {
        match this {
            Cow::Owned(Note { text }) => {
                let r = ButcheredNote { text: NoteTextField::from_owned(text) };
                proof {
                    assert(r.text == <Regular as crate::methods::ButcheringMethod<
                        Cow<u64>,
                    >>::owned_output(text));
                }
                r
            },
            Cow::Borrowed(Note { text }) => {
                let r = ButcheredNote { text: NoteTextField::from_borrowed(text) };
                proof {
                    assert(r.text == <Regular as crate::methods::ButcheringMethod<
                        Cow<u64>,
                    >>::borrowed_output(text));
                }
                r
            },
        }
    }

    fn unbutcher(this: ButcheredNote) -> (r: Note) {
        Note { text: this.text.into_owned() }
    }

    proof fn butcher_inverts(this: Cow<Note>) {
    }
}

/// Recursive round trip: a self-referential record holding another level of
/// itself behind the indirection butchers and rebuilds exactly at both
/// levels — the inner level is reachable from the outer butchered value, and
/// unbutchering gives back the original value at each level.
pub proof fn recursive_round_trip(outer: Chain, b: Box<Chain>)
    requires
        outer.next == Some(b),
    ensures
        ({
            let bo = Chain::butcher_spec(Cow::Owned(outer));
            let bi = Chain::butcher_spec(Cow::Owned(*b));
            &&& bo.next.value() == Some(b)
            &&& Chain::unbutcher_spec(bi) == *b
            &&& Chain::unbutcher_spec(bo) == outer
        }),
{
    Chain::butcher_inverts(Cow::Owned(outer));
    Chain::butcher_inverts(Cow::Owned(*b));
}

} // verus!
