use derive_optional::optional::Optional;
use derive_optional::optional::Optional::{Nothing, Something};

// unzip on Optional<(T, U)>
#[test]
fn test_unzip() {
    let x: Optional<(i32, i32)> = Something((1, 2));
    assert_eq!(x.unzip(), (Something(1), Something(2)));
    let x: Optional<(i32, i32)> = Nothing;
    assert_eq!(x.unzip(), (Nothing, Nothing));
}

// copied on Optional<&T>
#[test]
fn test_copied_ref() {
    let x: Optional<&i32> = Something(&1);
    assert_eq!(x.copied(), Something(1));
    let x: Optional<&i32> = Nothing;
    assert_eq!(x.copied(), Nothing);
}

// cloned on Optional<&T>
#[test]
fn test_cloned_ref() {
    let x: Optional<&i32> = Something(&1);
    assert_eq!(x.cloned(), Something(1));
    let x: Optional<&i32> = Nothing;
    assert_eq!(x.cloned(), Nothing);
}

// copied on Optional<&mut T>
#[test]
fn test_copied_mut() {
    let mut input = 1;
    let x: Optional<&mut i32> = Something(&mut input);
    assert_eq!(x.copied(), Something(1));
    let x: Optional<&mut i32> = Nothing;
    assert_eq!(x.copied(), Nothing);
}

// cloned on Optional<&mut T>
#[test]
fn test_cloned_mut() {
    let mut input = 1;
    let x: Optional<&mut i32> = Something(&mut input);
    assert_eq!(x.cloned(), Something(1));
    let x: Optional<&mut i32> = Nothing;
    assert_eq!(x.cloned(), Nothing);
}

// transpose on Optional<Result<T, E>>
#[test]
fn test_transpose() {
    let x: Optional<Result<i32, &'static str>> = Something(Ok(1));
    assert_eq!(x.transpose(), Ok(Something(1)));
    let x: Optional<Result<i32, &'static str>> = Something(Err("error"));
    assert_eq!(x.transpose(), Err("error"));
    let x: Optional<Result<i32, &'static str>> = Nothing;
    assert_eq!(x.transpose(), Ok(Nothing));
}

// flatten on Optional<Optional<T>>
#[test]
fn test_flatten() {
    let x: Optional<Optional<i32>> = Something(Something(1));
    assert_eq!(x.flatten(), Something(1));
    let x: Optional<Optional<i32>> = Something(Nothing);
    assert_eq!(x.flatten(), Nothing);
    let x: Optional<Optional<i32>> = Nothing;
    assert_eq!(x.flatten(), Nothing);
}

// flatten on Optional<Option<T>>
#[test]
fn test_flatten_option() {
    let x: Optional<Option<i32>> = Something(Some(1));
    assert_eq!(x.flatten(), Something(1));
    let x: Optional<Option<i32>> = Something(None);
    assert_eq!(x.flatten(), Nothing);
    let x: Optional<Option<i32>> = Nothing;
    assert_eq!(x.flatten(), Nothing);
}

#[test]
fn equality_of_values() {
    let a: Optional<i32> = Something(1);
    let b: Optional<i32> = Something(2);
    let n: Optional<i32> = Nothing;
    assert!(a == Something(1));
    assert!(a != b);
    assert!(a != n);
    assert!(n == Nothing);
}
