use butcher::Butcher;
use butcher::as_deref::AsDerefCow;
use butcher::butchered::ButcheredNote;
use butcher::butchered::Note;
use butcher::unnest::UnnestCow;
use butcher::butchered::ButcheredEvent;
use butcher::butchered::ButcheredInner;
use butcher::butchered::ButcheredSample;
use butcher::butchered::Chain;
use butcher::butchered::Event;
use butcher::butchered::Inner;
use butcher::butchered::Sample;
use butcher::butchered::Tag;
use butcher::cow::Cow;

fn sample() -> Sample {
    Sample {
        id: 7,
        plain: 11,
        tag: Tag { code: 13 },
        boxed: Box::new(17),
        inner: Inner { value: 42 },
    }
}

fn two_level_chain() -> Chain {
    Chain { val: 1, next: Some(Box::new(Chain { val: 2, next: None })) }
}

#[test]
fn sample_round_trips_from_owned() {
    let got = Sample::unbutcher(Sample::butcher(Cow::Owned(sample())));
    assert_eq!(got, sample());
}

#[test]
fn sample_round_trips_from_borrowed() {
    let got = Sample::unbutcher(Sample::butcher(Cow::Borrowed(sample())));
    assert_eq!(got, sample());
}

#[test]
fn borrowed_fields_stay_borrowed() {
    let ButcheredSample { id: _, plain, tag, boxed, inner } = Sample::butcher(
        Cow::Borrowed(sample()),
    );
    assert!(!plain.is_owned());
    assert_eq!(plain, Cow::Borrowed(11));
    assert!(!tag.is_owned());
    assert_eq!(tag, Cow::Borrowed(13));
    assert!(!boxed.is_owned());
    assert_eq!(boxed, Cow::Borrowed(17));
    let ButcheredInner { value } = inner;
    assert!(!value.is_owned());
    assert_eq!(value, Cow::Borrowed(42));
}

#[test]
fn owned_fields_come_out_owned() {
    let ButcheredSample { id, plain, tag, boxed, inner: _ } = Sample::butcher(
        Cow::Owned(sample()),
    );
    assert_eq!(id, 7);
    assert!(plain.is_owned());
    assert!(tag.is_owned());
    assert_eq!(tag, Cow::Owned(13));
    assert!(boxed.is_owned());
}

#[test]
fn copied_field_is_independent_of_the_input() {
    let mut original = sample();
    let butchered = Sample::butcher(Cow::Borrowed(original.clone()));
    original.id = 1000;
    assert_eq!(butchered.id, 7);
}

#[test]
fn rebutchered_field_is_butchered_again() {
    // A borrowed outer value hands the nested record on, butchered in turn.
    let ButcheredSample { inner, .. } = Sample::butcher(Cow::Borrowed(sample()));
    let ButcheredInner { value } = inner;
    assert_eq!(value, Cow::Owned(42));
}

#[test]
fn event_discriminant_is_preserved() {
    let cases = [Event::Load, Event::Key('x'), Event::Click { x: -3, y: 9 }];
    for make_borrowed in [false, true] {
        for e in &cases {
            let input = if make_borrowed {
                Cow::Borrowed(e.clone())
            } else {
                Cow::Owned(e.clone())
            };
            let out = Event::butcher(input);
            match (e, &out) {
                (Event::Load, ButcheredEvent::Load) => {}
                (Event::Key(_), ButcheredEvent::Key(_)) => {}
                (Event::Click { .. }, ButcheredEvent::Click { .. }) => {}
                _ => panic!("discriminant changed"),
            }
        }
    }
}

#[test]
fn event_round_trips() {
    let e = Event::Click { x: -3, y: 9 };
    let got = Event::unbutcher(Event::butcher(Cow::Owned(e.clone())));
    assert_eq!(got, e);
    let got = Event::unbutcher(Event::butcher(Cow::Borrowed(e.clone())));
    assert_eq!(got, e);
}

#[test]
fn chain_round_trips_at_both_levels() {
    // Butcher the outer level, then the inner one out of the resulting
    // field, and rebuild at each level.
    let outer = Chain::butcher(Cow::Owned(two_level_chain()));
    let next = outer.next;
    let val = outer.val;
    let inner_chain = *next.into_value().unwrap();
    assert_eq!(inner_chain, Chain { val: 2, next: None });

    let inner = Chain::butcher(Cow::Owned(inner_chain));
    let rebuilt_inner = Chain::unbutcher(inner);
    assert_eq!(rebuilt_inner, Chain { val: 2, next: None });

    let rebuilt_outer = Chain::unbutcher(butcher::butchered::ButcheredChain {
        val,
        next: Cow::Owned(Some(Box::new(rebuilt_inner))),
    });
    assert_eq!(rebuilt_outer, two_level_chain());

    // And rebuilding the outer level directly gives the original as well.
    let direct = Chain::unbutcher(Chain::butcher(Cow::Borrowed(two_level_chain())));
    assert_eq!(direct, two_level_chain());
}

#[test]
fn as_deref_collapses_the_indirection() {
    let owned: Cow<Tag> = Cow::Owned(Tag { code: 99 });
    let collapsed = owned.as_deref();
    assert!(collapsed.is_owned());
    assert_eq!(collapsed, Cow::Owned(99));

    let borrowed: Cow<Tag> = Cow::Borrowed(Tag { code: 99 });
    let collapsed = borrowed.as_deref();
    assert!(!collapsed.is_owned());
    assert_eq!(collapsed, Cow::Borrowed(99));
}

#[test]
fn nested_cow_field_unnests_again() {
    let n = Note { text: Cow::Owned(5) };
    let ButcheredNote { text } = Note::butcher(Cow::Borrowed(n));
    let flat = text.unnest();
    assert!(!flat.is_owned());
    assert_eq!(flat, Cow::Owned(5));

    let n = Note { text: Cow::Owned(5) };
    let ButcheredNote { text } = Note::butcher(Cow::Owned(n));
    let flat = text.unnest();
    assert!(flat.is_owned());
    assert_eq!(flat, Cow::Owned(5));
}
