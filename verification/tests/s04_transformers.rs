use derive_optional::optional::Optional;
use derive_optional::optional::Optional::{Nothing, Something};

// map
#[test]
fn map() {
    let x = Something(1);
    assert_eq!(x.map(|x| x as f32), Something(1.0));

    let x: Optional<usize> = Nothing;
    assert_eq!(x.map(|x| x as f32), Nothing);
}

// map_or
#[test]
fn s04_transformers_map_or() {
    let x = Something(1);
    assert_eq!(x.map_or(0.0, |x| x as f32), 1.0);

    let x: Optional<usize> = Nothing;
    assert_eq!(x.map_or(0.0, |x| x as f32), 0.0);
}

// map_or_else
#[test]
fn s04_transformers_map_or_else() {
    let x = Something(1);
    assert_eq!(x.map_or_else(|| 0.0, |x| x as f32), 1.0);

    let x: Optional<usize> = Nothing;
    assert_eq!(x.map_or_else(|| 0.0, |x| x as f32), 0.0);
}

// ok_or
#[test]
fn s04_transformers_ok_or() {
    let x = Something(1);
    assert_eq!(x.ok_or("error"), Ok(1));

    let x: Optional<usize> = Nothing;
    assert_eq!(x.ok_or("error"), Err("error"));
}

// ok_or_else
#[test]
fn s04_transformers_ok_or_else() {
    let x = Something(1);
    assert_eq!(x.ok_or_else(|| "error"), Ok(1));

    let x: Optional<usize> = Nothing;
    assert_eq!(x.ok_or_else(|| "error"), Err("error"));
}

// ok_or
#[test]
fn transformers_ok_or() {
    let x: Optional<usize> = Something(1);
    assert_eq!(x.ok_or("error"), Ok(1));
    let x: Optional<usize> = Optional::Nothing;
    assert_eq!(x.ok_or("error"), Err("error"));
}

// ok_or_else
#[test]
fn transformers_ok_or_else() {
    let x: Optional<usize> = Something(1);
    assert_eq!(x.ok_or_else(|| "error"), Ok(1));
    let x: Optional<usize> = Optional::Nothing;
    assert_eq!(x.ok_or_else(|| "error"), Err("error"));
}

// as_deref
#[test]
fn as_deref() {
    let x = Something(String::from("1"));
    assert_eq!(x.as_deref(), Something("1"));

    let x: Optional<String> = Nothing;
    assert_eq!(x.as_deref(), Nothing);
}

// mapping with the identity gives the value back
#[test]
fn map_identity() {
    for s in [Something(4u8), Nothing] {
        assert_eq!(s.map(|x| x), s);
    }
}
