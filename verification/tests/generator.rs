use derive_optional::definition::{
    Data, DeriveInput, Field, Fields, GenericParam, Generics, TypeParam, Variant, WherePredicate,
};
use derive_optional::optional_internal;

fn tuple_variant(name: &str, ty: &str) -> Variant {
    Variant {
        ident: name.to_string(),
        fields: Fields::Unnamed(vec![Field { ident: None, ty: ty.to_string() }]),
    }
}

fn unit_variant(name: &str) -> Variant {
    Variant { ident: name.to_string(), fields: Fields::Unit }
}

fn no_generics() -> Generics {
    Generics { params: vec![], predicates: vec![] }
}

fn one_type_param(name: &str, bounds: &[&str]) -> Generics {
    Generics {
        params: vec![GenericParam::Type(TypeParam {
            ident: name.to_string(),
            bounds: bounds.iter().map(|b| b.to_string()).collect(),
        })],
        predicates: vec![],
    }
}

fn has_changed() -> DeriveInput {
    DeriveInput {
        ident: "HasChanged".to_string(),
        generics: one_type_param("T", &[]),
        data: Data::Enum(vec![tuple_variant("Changed", "T"), unit_variant("NoChange")]),
    }
}

fn specific() -> DeriveInput {
    DeriveInput {
        ident: "TestType".to_string(),
        generics: no_generics(),
        data: Data::Enum(vec![unit_variant("NoneVariant"), tuple_variant("SomeVariant", "usize")]),
    }
}

fn bounded() -> DeriveInput {
    DeriveInput {
        ident: "WithGenerics".to_string(),
        generics: Generics {
            params: vec![GenericParam::Type(TypeParam {
                ident: "T".to_string(),
                bounds: vec!["Display".to_string()],
            })],
            predicates: vec![WherePredicate {
                bounded_ident: Some("T".to_string()),
                bounds: vec!["Default".to_string(), "Clone".to_string()],
            }],
        },
        data: Data::Enum(vec![
            tuple_variant("SomeVariantWithGenericType", "T"),
            unit_variant("StillEmptyNoneVariant"),
        ]),
    }
}

/// The names of the methods in the first impl block of a file, in order.
fn inherent_methods(file: &syn::File) -> Vec<String> {
    for item in &file.items {
        if let syn::Item::Impl(block) = item {
            if block.trait_.is_none() {
                let mut names = Vec::new();
                for inner in &block.items {
                    if let syn::ImplItem::Fn(f) = inner {
                        names.push(f.sig.ident.to_string());
                    }
                }
                return names;
            }
        }
    }
    Vec::new()
}

/// The last segment of the path of each trait that a file implements, in order.
fn implemented_traits(file: &syn::File) -> Vec<String> {
    let mut names = Vec::new();
    for item in &file.items {
        if let syn::Item::Impl(block) = item {
            if let Some((_, path, _)) = &block.trait_ {
                names.push(path.segments.last().unwrap().ident.to_string());
            }
        }
    }
    names
}

#[test]
fn generic_emission_is_rust() {
    let text = optional_internal(has_changed(), false).unwrap();
    let file = syn::parse_file(&text).unwrap();
    assert_eq!(
        inherent_methods(&file),
        vec![
            "as_option_ref",
            "as_option_mut",
            "and",
            "and_then",
            "filter",
            "or",
            "or_else",
            "xor",
            "insert",
            "get_or_insert",
            "get_or_insert_default",
            "get_or_insert_with",
            "expect",
            "unwrap",
            "unwrap_or",
            "unwrap_or_else",
            "unwrap_or_default",
            "unwrap_unchecked",
            "iter",
            "iter_mut",
            "take",
            "replace",
            "contains",
            "zip",
            "zip_with",
            "is_changed",
            "is_changed_and",
            "is_no_change",
            "is_no_change_or",
            "as_ref",
            "as_mut",
            "as_pin_ref",
            "as_pin_mut",
            "as_slice",
            "as_mut_slice",
            "map",
            "map_or",
            "map_or_else",
            "ok_or",
            "ok_or_else",
            "as_deref",
            "as_deref_mut",
        ]
    );
    assert_eq!(
        implemented_traits(&file),
        vec!["From", "From", "From", "Default", "IntoIterator", "PartialEq"]
    );
    // one impl block of the enum's own, five trait impls, six blocks for
    // particular carried types, and equality
    assert_eq!(file.items.len(), 13);
}

#[test]
fn specific_emission_is_rust() {
    let text = optional_internal(specific(), false).unwrap();
    let file = syn::parse_file(&text).unwrap();
    assert_eq!(
        inherent_methods(&file),
        vec![
            "as_option_ref",
            "as_option_mut",
            "and",
            "and_then",
            "filter",
            "or",
            "or_else",
            "xor",
            "insert",
            "get_or_insert",
            "get_or_insert_default",
            "get_or_insert_with",
            "expect",
            "unwrap",
            "unwrap_or",
            "unwrap_or_else",
            "unwrap_or_default",
            "unwrap_unchecked",
            "iter",
            "iter_mut",
            "take",
            "replace",
            "contains",
            "zip_with",
            "is_some_variant",
            "is_some_variant_and",
            "is_none_variant",
            "is_none_variant_or",
            "as_slice",
            "as_mut_slice",
            "ok_or",
            "ok_or_else",
        ]
    );
    assert_eq!(implemented_traits(&file), vec!["From", "From", "From", "Default", "IntoIterator"]);
    assert_eq!(file.items.len(), 6);
}

#[test]
fn bounded_emission_is_rust() {
    let text = optional_internal(bounded(), false).unwrap();
    let file = syn::parse_file(&text).unwrap();
    assert_eq!(file.items.len(), 13);
    assert!(text.starts_with(
        "impl<T: Display + Default + Clone> WithGenerics<T> {"
    ));
    assert!(text.contains("where U: Display + Default + Clone, (T, U): Display + Default + Clone,"));
    assert!(text.contains("fn is_some_variant_with_generic_type(&self) -> bool"));
    assert!(text.contains("fn is_still_empty_none_variant(&self) -> bool"));
}

#[test]
fn unbounded_emission_has_no_where_clause_of_bounds() {
    let text = optional_internal(has_changed(), false).unwrap();
    assert!(text.starts_with("impl<T> HasChanged<T> {"));
    assert!(text.contains("pub const fn as_ref<'a>(&'a self) -> HasChanged<&'a T>  {"));
}

#[test]
fn try_operator_only_on_request() {
    let without = optional_internal(has_changed(), false).unwrap();
    assert!(!without.contains("ops::Try"));
    assert!(!without.contains("FromResidual"));
    assert!(!without.contains("ControlFlow"));

    let with = optional_internal(has_changed(), true).unwrap();
    let file = syn::parse_file(&with).unwrap();
    assert_eq!(
        implemented_traits(&file),
        vec!["From", "From", "From", "Default", "IntoIterator", "Try", "FromResidual", "PartialEq"]
    );
    assert!(with.len() > without.len());
}

#[test]
fn emission_is_the_same_each_time() {
    let first = optional_internal(bounded(), true).unwrap();
    let second = optional_internal(bounded(), true).unwrap();
    assert_eq!(first, second);
}

#[test]
fn unwrap_message_names_type_and_variant() {
    let text = optional_internal(has_changed(), false).unwrap();
    assert!(text.contains("panic!(\"{}\", \"called `HasChanged::unwrap()` on a `NoChange` value\")"));
}

#[test]
fn documentation_is_a_string_literal() {
    let text = optional_internal(has_changed(), false).unwrap();
    assert!(text.contains(
        "#[doc = \"Returns `true` if the `HasChanged` is a `Changed` value. Equivalent to `Option::is_some`.\"]"
    ));
    // the line breaks of a documentation text are escaped
    assert!(text.contains("Equivalent to `Option::expect`.\\n\\n# Panics\\n\\nPanics if"));
}

#[test]
fn variants_in_either_order() {
    let first = DeriveInput {
        ident: "E".to_string(),
        generics: no_generics(),
        data: Data::Enum(vec![tuple_variant("Full", "u8"), unit_variant("Empty")]),
    };
    let second = DeriveInput {
        ident: "E".to_string(),
        generics: no_generics(),
        data: Data::Enum(vec![unit_variant("Empty"), tuple_variant("Full", "u8")]),
    };
    assert_eq!(optional_internal(first, false), optional_internal(second, false));
}

fn model_enum() -> DeriveInput {
    DeriveInput {
        ident: "Optional".to_string(),
        generics: one_type_param("T", &[]),
        data: Data::Enum(vec![tuple_variant("Something", "T"), unit_variant("Nothing")]),
    }
}

#[test]
fn emission_for_the_model_enum() {
    let text = optional_internal(model_enum(), false).unwrap();
    assert!(text.contains(
        "
    #[inline] pub fn xor(self, optb: Self) -> Self {
        match (self, optb) {
            (Optional::Something(x), Optional::Nothing) | (Optional::Nothing, Optional::Something(x)) => Optional::Something(x),
            _ => Optional::Nothing,
        }
    }
"
    ));
    assert!(text.contains(
        "
    #[inline] pub fn is_something(&self) -> bool {
        matches!(*self, Optional::Something(_))
    }
"
    ));
    assert!(text.contains(
        "
    #[inline] pub fn zip<U>(self, other: Optional<U>) -> Optional<(T, U)>   {
        match (self, other) {
            (Optional::Something(x), Optional::Something(y)) => Optional::Something((x, y)),
            _ => Optional::Nothing,
        }
    }
"
    ));
    assert!(text.contains(
        "
#[automatically_derived]
impl<T> ::std::default::Default for Optional<T> {
    #[doc = \"Returns a `Nothing` value. Equivalent to `Option::default`.\"]
    fn default() -> Self {
        Optional::Nothing
    }
}
"
    ));
    assert!(text.contains("pub unsafe fn unwrap_unchecked(self) -> T {"));
}

#[test]
fn snake_case_of_variant_names() {
    let input = DeriveInput {
        ident: "Fetched".to_string(),
        generics: no_generics(),
        data: Data::Enum(vec![tuple_variant("HTTPResponse", "u16"), unit_variant("TimedOut2")]),
    };
    let text = optional_internal(input, false).unwrap();
    assert!(text.contains("fn is_http_response(&self)"));
    assert!(text.contains("fn is_timed_out_2(&self)"));
    assert!(text.contains("Fetched::HTTPResponse(_)"));
}
