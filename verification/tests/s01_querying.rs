use derive_optional::optional::Optional;
use derive_optional::optional::Optional::{Nothing, Something};

// is_some
#[test]
fn s01_querying_is_some() {
    let test = Something(5);
    assert!(test.is_something());

    let test: Optional<usize> = Nothing;
    assert!(!test.is_something());
}

// is_some_and
#[test]
fn s01_querying_is_some_and() {
    let test = Something(5);
    assert!(test.is_something_and(|x| x == 5));

    let test = Something(5);
    assert!(!test.is_something_and(|x| x == 6));

    let test: Optional<usize> = Nothing;
    assert!(!test.is_something_and(|x| x == 5));
}

// is_none
#[test]
fn s01_querying_is_none() {
    let test = Something(5);
    assert!(!test.is_nothing());

    let test: Optional<usize> = Nothing;
    assert!(test.is_nothing());
}

// is_none_or
#[test]
fn s01_querying_is_none_or() {
    let test = Something(5);
    assert!(test.is_nothing_or(|x| x == 5));

    let test = Something(5);
    assert!(!test.is_nothing_or(|x| x == 6));

    let test: Optional<usize> = Nothing;
    assert!(test.is_nothing_or(|x| x == 5));
}

// exactly one of the two predicates holds
#[test]
fn predicates_complement() {
    for s in [Something(1u8), Nothing] {
        assert!(s.is_something() != s.is_nothing());
    }
}

// the function is not called where there is no value
#[test]
fn predicate_not_called_without_value() {
    let test: Optional<usize> = Nothing;
    assert!(!test.is_something_and(|_| panic!("called")));
    assert!(test.is_nothing_or(|_| panic!("called")));
}
