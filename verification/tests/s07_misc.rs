use derive_optional::optional::Optional;
use derive_optional::optional::Optional::{Nothing, Something};

// take
#[test]
fn s07_misc_take() {
    let mut test = Something(1);
    assert_eq!(test.take(), Something(1));
    assert_eq!(test, Nothing);

    let mut test: Optional<usize> = Nothing;
    assert_eq!(test.take(), Nothing);
    assert_eq!(test, Nothing);
}

// replace
#[test]
fn s07_misc_replace() {
    let mut test = Something(1);
    assert_eq!(test.replace(2), Something(1));
    assert_eq!(test, Something(2));

    let mut test: Optional<usize> = Nothing;
    assert_eq!(test.replace(2), Nothing);
    assert_eq!(test, Something(2));
}

// contains
#[test]
fn s07_misc_contains() {
    let test = Something(1);
    assert!(test.contains(&1));
    assert!(!test.contains(&2));

    let test: Optional<usize> = Nothing;
    assert!(!test.contains(&1));
}

// zip
#[test]
fn zip() {
    let a = Something(1);
    let b = Something("hi");
    let n: Optional<f32> = Nothing;
    assert_eq!(a.zip(b), Something((1, "hi")));
    assert_eq!(b.zip(a), Something(("hi", 1)));
    assert_eq!(a.zip(n), Nothing);
    assert_eq!(n.zip(b), Nothing);
    assert_eq!(n.zip(n), Nothing);
}

// zip_with
#[test]
fn s07_misc_zip_with() {
    let a = Something(1);
    let b = Something("hi");
    let n: Optional<f32> = Nothing;
    assert_eq!(
        a.zip_with(b, |x, y| format!("{} {}", x, y)),
        Something(String::from("1 hi"))
    );
    assert_eq!(
        b.zip_with(a, |x, y| format!("{} {}", x, y)),
        Something(String::from("hi 1"))
    );
    assert_eq!(a.zip_with(n, |x, y| format!("{} {}", x, y)), Nothing);
    assert_eq!(n.zip_with(b, |x, y| format!("{} {}", x, y)), Nothing);
    assert_eq!(n.zip_with(n, |x, y| format!("{} {}", x, y)), Nothing);

    // with a function that returns the carried type
    let a: Optional<usize> = Something(1);
    let b: Optional<usize> = Something(2);
    let n: Optional<usize> = Nothing;
    assert_eq!(a.zip_with(b, |x, y| x + y), Something(3));
    assert_eq!(a.zip_with(n, |x, y| x + y), Nothing);
    assert_eq!(n.zip_with(b, |x, y| x + y), Nothing);
    assert_eq!(n.zip_with(n, |x, y| x + y), Nothing);
}

// a second take finds nothing and leaves nothing
#[test]
fn take_twice() {
    let mut test = Something(1);
    test.take();
    assert_eq!(test.take(), Nothing);
    assert_eq!(test, Nothing);
}

// zipping in the other order swaps the pair
#[test]
fn zip_symmetry() {
    let values = [Something(1u8), Nothing];
    let others = [Something('a'), Nothing];
    for a in values {
        for b in others {
            let swapped = b.zip(a).map(|(y, x)| (x, y));
            assert_eq!(a.zip(b), swapped);
            assert_eq!(a.zip(b).is_something(), b.zip(a).is_something());
        }
    }
}
