use butcher::cow::Cow;
use butcher::unnest::UnnestCow;

fn is_owned<T>(input: Cow<T>) -> bool {
    input.is_owned()
}

#[test]
fn owned_owned() {
    let input: Cow<Cow<usize>> = Cow::Owned(Cow::Owned(42));
    let tmp = input.unnest();

    assert_eq!(tmp, Cow::Owned(42));
    assert!(is_owned(tmp));
}

#[test]
fn owned_borrowed() {
    let input: Cow<Cow<usize>> = Cow::Owned(Cow::Borrowed(42));
    let tmp = input.unnest();

    assert_eq!(tmp, Cow::Owned(42));
    assert!(!is_owned(tmp));
}

#[test]
fn borrowed_owned() {
    let input: Cow<Cow<usize>> = Cow::Borrowed(Cow::Owned(42));
    let tmp = input.unnest();

    assert_eq!(tmp, Cow::Owned(42));
    assert!(!is_owned(tmp));
}

#[test]
fn borrowed_borrowed() {
    let input: Cow<Cow<usize>> = Cow::Borrowed(Cow::Borrowed(42));
    let tmp = input.unnest();

    assert_eq!(tmp, Cow::Owned(42));
    assert!(!is_owned(tmp));
}

#[test]
fn unnest_cow_function_matches_method() {
    let input: Cow<Cow<usize>> = Cow::Owned(Cow::Owned(7));
    let tmp = butcher::unnest::unnest_cow(input);
    assert_eq!(tmp, Cow::Owned(7));
    assert!(is_owned(tmp));
}
