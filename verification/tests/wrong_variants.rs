use derive_optional::definition::{
    Data, DeriveInput, Field, Fields, GenericParam, Generics, TypeParam, Variant, WherePredicate,
};
use derive_optional::generics::check_generics;
use derive_optional::optional_internal;
use derive_optional::shape::parse_variants;
use derive_optional::utils::{Diagnostic, Error, Origin};

fn field(ty: &str) -> Field {
    Field { ident: None, ty: ty.to_string() }
}

fn named(name: &str, ty: &str) -> Field {
    Field { ident: Some(name.to_string()), ty: ty.to_string() }
}

fn variant(name: &str, fields: Fields) -> Variant {
    Variant { ident: name.to_string(), fields }
}

fn enumeration(name: &str, generics: Generics, variants: Vec<Variant>) -> DeriveInput {
    DeriveInput { ident: name.to_string(), generics, data: Data::Enum(variants) }
}

fn no_generics() -> Generics {
    Generics { params: vec![], predicates: vec![] }
}

fn type_param(name: &str) -> GenericParam {
    GenericParam::Type(TypeParam { ident: name.to_string(), bounds: vec![] })
}

fn generic_in(name: &str) -> Generics {
    Generics { params: vec![type_param(name)], predicates: vec![] }
}

fn refused(input: DeriveInput) -> Vec<(Origin, String)> {
    let error = optional_internal(input, false).unwrap_err();
    assert!(!error.diagnostics.is_empty());
    error.diagnostics.into_iter().map(|d| (d.origin, d.message)).collect()
}

const TWO: &str = "Optional needs exactly two variants";
const TOO_MANY: &str = "Optional only works when there are exactly 2 enum variants";
const NO_EMPTY: &str =
    "Optional requires exactly one of its variants (the 'none' variant) to have no fields";
const NO_DATA: &str =
    "Optional requires exactly one of its variants (the 'some' variant) to contain data";
const KINDS: &str = "Optional needs one unit variant (the 'none' variant) and one variant with data (the 'some' variant)";

#[test]
fn not_an_enum() {
    for data in [Data::Struct, Data::Union] {
        let input = DeriveInput { ident: "S".to_string(), generics: no_generics(), data };
        assert_eq!(
            refused(input),
            vec![(Origin::Keyword, "Optional can only be used on enums".to_string())]
        );
    }
}

#[test]
fn no_variants() {
    assert_eq!(
        refused(enumeration("NoVariants", no_generics(), vec![])),
        vec![(Origin::TypeName, TWO.to_string())]
    );
}

#[test]
fn one_variant() {
    assert_eq!(
        refused(enumeration("OneVariant", no_generics(), vec![variant("Variant", Fields::Unit)])),
        vec![(Origin::TypeName, TWO.to_string())]
    );
    assert_eq!(
        refused(enumeration(
            "OneVariantWithData",
            generic_in("T"),
            vec![variant("Variant", Fields::Unnamed(vec![field("T")]))]
        )),
        vec![(Origin::TypeName, TWO.to_string())]
    );
}

#[test]
fn too_many_variants() {
    let input = enumeration(
        "TooManyVariants",
        no_generics(),
        vec![
            variant("Variant1", Fields::Unit),
            variant("Variant2", Fields::Unit),
            variant("Variant3", Fields::Unnamed(vec![field("usize")])),
            variant("Variant4", Fields::Named(vec![named("field", "usize")])),
            variant("Variant5", Fields::Unit),
        ],
    );
    assert_eq!(
        refused(input),
        vec![
            (Origin::Variant(2), TOO_MANY.to_string()),
            (Origin::Variant(3), TOO_MANY.to_string()),
            (Origin::Variant(4), TOO_MANY.to_string()),
        ]
    );
}

#[test]
fn only_unit_variants() {
    let input = enumeration(
        "OnlyUnitVariants",
        no_generics(),
        vec![variant("Variant1", Fields::Unit), variant("Variant2", Fields::Unit)],
    );
    assert_eq!(
        refused(input),
        vec![(Origin::Variant(0), NO_DATA.to_string()), (Origin::Variant(1), NO_DATA.to_string())]
    );
}

#[test]
fn only_data_variants() {
    let input = enumeration(
        "OnlyDataVariants",
        generic_in("T"),
        vec![
            variant("Variant1", Fields::Unnamed(vec![field("T")])),
            variant("Variant2", Fields::Unnamed(vec![field("T")])),
        ],
    );
    assert_eq!(
        refused(input),
        vec![(Origin::Variant(0), NO_EMPTY.to_string()), (Origin::Variant(1), NO_EMPTY.to_string())]
    );
}

#[test]
fn only_named_variants() {
    let input = enumeration(
        "OnlyNamedVariants",
        no_generics(),
        vec![
            variant("Variant1", Fields::Named(vec![named("field", "usize")])),
            variant("Variant2", Fields::Named(vec![named("field", "usize")])),
        ],
    );
    assert_eq!(
        refused(input),
        vec![(Origin::Variant(0), KINDS.to_string()), (Origin::Variant(1), KINDS.to_string())]
    );
}

#[test]
fn named_data_variant() {
    let expected = "Optional currently does not support named fields in the 'some' variant, only tuple variants.\nHint: Change this variant to for example `Variant1(T)`";
    let input = enumeration(
        "NamedDataVariant",
        generic_in("T"),
        vec![
            variant("Variant1", Fields::Named(vec![named("field", "T")])),
            variant("Variant2", Fields::Unit),
        ],
    );
    assert_eq!(refused(input), vec![(Origin::FieldList(0), expected.to_string())]);

    let expected = "Optional currently does not support named fields in the 'some' variant, only tuple variants.\nHint: Change this variant to for example `Variant2(T)`";
    let input = enumeration(
        "NamedDataVariant2",
        generic_in("T"),
        vec![
            variant("Variant1", Fields::Unit),
            variant("Variant2", Fields::Named(vec![named("field", "T")])),
        ],
    );
    assert_eq!(refused(input), vec![(Origin::FieldList(1), expected.to_string())]);
}

#[test]
fn named_data_variant_no_fields() {
    let expected = "Optional currently does not support named fields in the 'some' variant, only tuple variants.\nHint: Change this variant to for example `Variant1(...)`";
    let input = enumeration(
        "NamedDataVariantNoFields",
        no_generics(),
        vec![variant("Variant1", Fields::Named(vec![])), variant("Variant2", Fields::Unit)],
    );
    assert_eq!(refused(input), vec![(Origin::FieldList(0), expected.to_string())]);
}

#[test]
fn named_data_variant_multi_fields() {
    let expected = "Optional currently does not support named fields in the 'some' variant, only tuple variants.\nHint: Change this variant to for example `Variant2(MultiVariant2)`\n      with `struct MultiVariant2 { a: T, b: usize, c: T }`";
    let input = enumeration(
        "Multi",
        generic_in("T"),
        vec![
            variant("Variant1", Fields::Unit),
            variant(
                "Variant2",
                Fields::Named(vec![named("a", "T"), named("b", "usize"), named("c", "T")]),
            ),
        ],
    );
    assert_eq!(refused(input), vec![(Origin::FieldList(1), expected.to_string())]);
}

#[test]
fn carrying_variant_without_field() {
    let input = enumeration(
        "E",
        no_generics(),
        vec![variant("Empty", Fields::Unit), variant("Full", Fields::Unnamed(vec![]))],
    );
    assert_eq!(
        refused(input),
        vec![(
            Origin::Variant(1),
            "Optional needs exactly one field in the 'some' variant".to_string()
        )]
    );
}

#[test]
fn carrying_variant_with_two_fields() {
    let message = "Optional only works when there is exactly one field in the 'some' variant";
    let input = enumeration(
        "E",
        no_generics(),
        vec![
            variant("Full", Fields::Unnamed(vec![field("u8"), field("u16"), field("u32")])),
            variant("Empty", Fields::Unit),
        ],
    );
    assert_eq!(
        refused(input),
        vec![(Origin::Field(0, 1), message.to_string()), (Origin::Field(0, 2), message.to_string())]
    );
}

#[test]
fn positional_field_with_a_name() {
    let input = enumeration(
        "E",
        no_generics(),
        vec![
            variant("Full", Fields::Unnamed(vec![named("value", "u8")])),
            variant("Empty", Fields::Unit),
        ],
    );
    assert_eq!(
        refused(input),
        vec![(
            Origin::FieldName(0, 0),
            "Optional currently only supports tuple variants for the 'some' variant like `value(u8)`"
                .to_string()
        )]
    );
}

fn good_variants(ty: &str) -> Vec<Variant> {
    vec![variant("SomeVariant", Fields::Unnamed(vec![field(ty)])), variant("NoneVariant", Fields::Unit)]
}

#[test]
fn two_generic_types() {
    let generics = Generics { params: vec![type_param("A"), type_param("B")], predicates: vec![] };
    assert_eq!(
        refused(enumeration("TooManyGenerics", generics, good_variants("A"))),
        vec![(Origin::Param(1), "Optional currently only supports one generic type".to_string())]
    );
}

#[test]
fn parameter_that_is_no_type() {
    let generics = Generics {
        params: vec![
            GenericParam::Lifetime("'a".to_string()),
            type_param("T"),
            GenericParam::Const("const N: usize".to_string()),
        ],
        predicates: vec![],
    };
    let message = "Optional currently only supports a generic type";
    assert_eq!(
        refused(enumeration("E", generics, good_variants("T"))),
        vec![(Origin::Param(0), message.to_string()), (Origin::Param(2), message.to_string())]
    );
}

#[test]
fn where_clause_on_another_type() {
    let generics = Generics {
        params: vec![type_param("A")],
        predicates: vec![
            WherePredicate { bounded_ident: Some("A".to_string()), bounds: vec!["Clone".to_string()] },
            WherePredicate { bounded_ident: Some("B".to_string()), bounds: vec!["Clone".to_string()] },
            WherePredicate { bounded_ident: None, bounds: vec!["Clone".to_string()] },
        ],
    };
    let message = "Optional currently only supports where clauses on the generic type";
    assert_eq!(
        refused(enumeration("E", generics, good_variants("A"))),
        vec![(Origin::Predicate(1), message.to_string()), (Origin::Predicate(2), message.to_string())]
    );
}

#[test]
fn problems_of_parameters_and_predicates_together() {
    let generics = Generics {
        params: vec![type_param("A"), type_param("B")],
        predicates: vec![WherePredicate { bounded_ident: None, bounds: vec![] }],
    };
    assert_eq!(
        refused(enumeration("E", generics, good_variants("A"))),
        vec![
            (Origin::Param(1), "Optional currently only supports one generic type".to_string()),
            (
                Origin::Predicate(0),
                "Optional currently only supports where clauses on the generic type".to_string()
            ),
        ]
    );
}

#[test]
fn generic_type_that_is_not_carried() {
    assert_eq!(
        refused(enumeration("E", generic_in("T"), good_variants("usize"))),
        vec![(
            Origin::ParamName(0),
            "The generic type must be the same as the type in the 'some' variant".to_string()
        )]
    );
}

#[test]
fn shape_is_checked_before_generics() {
    let generics = Generics { params: vec![type_param("A"), type_param("B")], predicates: vec![] };
    assert_eq!(
        refused(enumeration("E", generics, vec![])),
        vec![(Origin::TypeName, TWO.to_string())]
    );
}

#[test]
fn parse_variants_finds_the_carrying_variant() {
    let full = variant("Full", Fields::Unnamed(vec![field("u8")]));
    let empty = variant("Empty", Fields::Unit);
    let name = "E".to_string();
    let expected = Ok((full.clone(), empty.clone(), field("u8")));
    assert_eq!(parse_variants(vec![full.clone(), empty.clone()], &name), expected);
    assert_eq!(parse_variants(vec![empty, full], &name), expected);
}

#[test]
fn check_generics_collects_bounds() {
    let ty = "T".to_string();
    assert_eq!(check_generics(no_generics(), &ty), Ok(None));
    assert_eq!(check_generics(generic_in("T"), &ty), Ok(Some(vec![])));
    let generics = Generics {
        params: vec![GenericParam::Type(TypeParam {
            ident: "T".to_string(),
            bounds: vec!["Display".to_string()],
        })],
        predicates: vec![
            WherePredicate { bounded_ident: Some("T".to_string()), bounds: vec!["Default".to_string()] },
            WherePredicate {
                bounded_ident: Some("T".to_string()),
                bounds: vec!["Clone".to_string(), "Send".to_string()],
            },
        ],
    };
    assert_eq!(
        check_generics(generics, &ty),
        Ok(Some(vec![
            "Display".to_string(),
            "Default".to_string(),
            "Clone".to_string(),
            "Send".to_string()
        ]))
    );
    // a where clause on the carried type of an enum without parameters is passed over
    let generics = Generics {
        params: vec![],
        predicates: vec![WherePredicate {
            bounded_ident: Some("usize".to_string()),
            bounds: vec!["Copy".to_string()],
        }],
    };
    assert_eq!(check_generics(generics, &"usize".to_string()), Ok(None));
}

#[test]
fn error_lists_its_messages() {
    let error = Error {
        diagnostics: vec![
            Diagnostic { origin: Origin::TypeName, message: "first".to_string() },
            Diagnostic { origin: Origin::Variant(1), message: "second".to_string() },
        ],
    };
    assert_eq!(error.messages(), vec!["first".to_string(), "second".to_string()]);
    assert_eq!(Error::new(Origin::Keyword, "only").messages(), vec!["only".to_string()]);
}
