use butcher::cow::Cow;
use butcher::iterator::CowIter;

#[test]
fn from_cow() {
    let i = vec![4usize, 1, 3, 5];
    let mut i = CowIter::from_cow(Cow::Owned(i));
    assert_eq!(i.next(), Some(Cow::Owned(4)));
    assert_eq!(i.next(), Some(Cow::Owned(1)));
    assert_eq!(i.next(), Some(Cow::Owned(3)));
    assert_eq!(i.next(), Some(Cow::Owned(5)));
    assert_eq!(i.next(), None);
}

#[test]
fn from_cow_borrowed() {
    let v = vec![4usize, 1, 3, 5];
    let mut it = CowIter::from_cow(Cow::Borrowed(v));
    for expected in [4usize, 1, 3, 5] {
        let e = it.next().unwrap();
        assert!(!e.is_owned());
        assert_eq!(e, Cow::Borrowed(expected));
    }
    assert_eq!(it.next(), None);
}

#[test]
fn owned_input_yields_owned_elements() {
    let v = vec![9usize];
    let mut it = CowIter::from_cow(Cow::Owned(v));
    let e = it.next().unwrap();
    assert!(e.is_owned());
    assert_eq!(e, Cow::Owned(9));
    assert_eq!(it.next(), None);
}
