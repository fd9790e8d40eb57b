use derive_optional::optional::Optional;
use derive_optional::optional::Optional::{Nothing, Something};

// as_option_ref
#[test]
fn s99_additions_as_option_ref() {
    let test: Optional<usize> = Something(0);
    assert_eq!(test.as_option_ref(), Some(&0));

    let test: Optional<usize> = Nothing;
    assert_eq!(test.as_option_ref(), None);
}

// as_option_mut
#[test]
fn s99_additions_as_option_mut() {
    let mut test: Optional<usize> = Something(0);
    {
        let ref_mut = test.as_option_mut();
        assert_eq!(ref_mut, Some(&mut 0));
        *ref_mut.unwrap() = 1;
    }
    assert_eq!(test, Something(1));

    let mut test: Optional<usize> = Nothing;
    assert_eq!(test.as_option_mut(), None);
}
