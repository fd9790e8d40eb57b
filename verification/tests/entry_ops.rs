use derive_optional::optional::Optional;
use derive_optional::optional::Optional::{Nothing, Something};

// insert
#[test]
fn insert() {
    let mut test: Optional<usize> = Something(1);
    assert_eq!(test.insert(2), &mut 2);
    assert_eq!(test, Something(2));

    let mut test: Optional<usize> = Nothing;
    assert_eq!(test.insert(2), &mut 2);
    assert_eq!(test, Something(2));
}

// get_or_insert
#[test]
fn get_or_insert() {
    let mut test: Optional<usize> = Something(1);
    assert_eq!(test.get_or_insert(2), &mut 1);
    assert_eq!(test, Something(1));

    let mut test: Optional<usize> = Nothing;
    assert_eq!(test.get_or_insert(2), &mut 2);
    assert_eq!(test, Something(2));
}

// get_or_insert_default
#[test]
fn get_or_insert_default() {
    let mut test: Optional<usize> = Something(1);
    assert_eq!(test.get_or_insert_default(), &mut 1);
    assert_eq!(test, Something(1));

    let mut test: Optional<usize> = Nothing;
    assert_eq!(test.get_or_insert_default(), &mut 0);
    assert_eq!(test, Something(0));
}

// get_or_insert_with
#[test]
fn get_or_insert_with() {
    let mut test: Optional<usize> = Something(1);
    assert_eq!(test.get_or_insert_with(|| 2), &mut 1);
    assert_eq!(test, Something(1));

    let mut test: Optional<usize> = Nothing;
    assert_eq!(test.get_or_insert_with(|| 2), &mut 2);
    assert_eq!(test, Something(2));
}

// what is written through the reference is written to the value
#[test]
fn insert_returns_a_reference_into_the_value() {
    let mut test: Optional<usize> = Nothing;
    *test.insert(2) += 1;
    assert_eq!(test, Something(3));
    *test.get_or_insert(10) += 1;
    assert_eq!(test, Something(4));
}
