use derive_optional::optional::Optional;
use derive_optional::optional::Optional::{Nothing, Something};

// expect
#[test]
fn expect_non_panicking() {
    let test = Something(1);
    assert_eq!(test.expect("test"), 1);
}

// unwrap
#[test]
fn unwrap_non_panicking() {
    let test = Something(1);
    assert_eq!(test.unwrap(), 1);
}

// unwrap_or
#[test]
fn unwrap_or() {
    let test = Something(1);
    assert_eq!(test.unwrap_or(2), 1);

    let test: Optional<usize> = Nothing;
    assert_eq!(test.unwrap_or(2), 2);
}

// unwrap_or_else
#[test]
fn unwrap_or_else() {
    let test = Something(1);
    assert_eq!(test.unwrap_or_else(|| 2), 1);

    let test: Optional<usize> = Nothing;
    assert_eq!(test.unwrap_or_else(|| 2), 2);
}

// unwrap_or_default
#[test]
fn unwrap_or_default() {
    let test = Something(1);
    assert_eq!(test.unwrap_or_default(), 1);

    let test: Optional<usize> = Nothing;
    assert_eq!(test.unwrap_or_default(), 0);
}

// unwrap_unchecked
#[test]
fn unwrap_unchecked() {
    let test = Something(1);
    assert_eq!(test.unwrap_unchecked(), 1);

    // no test for Nothing: the caller has to rule it out
}

// unwrap_or_default gives what unwrap_or gives for the default value
#[test]
fn unwrap_or_default_is_unwrap_or_of_default() {
    for s in [Something(9u32), Nothing] {
        assert_eq!(s.unwrap_or_default(), s.unwrap_or(u32::default()));
    }
    for s in [Something(String::from("a")), Nothing] {
        assert_eq!(s.clone().unwrap_or_default(), s.unwrap_or(String::default()));
    }
}
