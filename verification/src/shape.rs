//! The shape of the enum: exactly two variants, one that carries exactly one
//! value by position and one that carries nothing.

use vstd::prelude::*;
use crate::definition::{Field, Fields, Variant};
use crate::text::{join, joined, or_empty, option_text, texts};
use crate::utils::{repeated, Error, Note, Origin};

verus! {

pub const MSG_TWO_VARIANTS: &'static str = "Optional needs exactly two variants";

pub const MSG_TOO_MANY_VARIANTS: &'static str =
    "Optional only works when there are exactly 2 enum variants";

pub const MSG_NO_EMPTY_VARIANT: &'static str =
    "Optional requires exactly one of its variants (the 'none' variant) to have no fields";

pub const MSG_NO_DATA_VARIANT: &'static str =
    "Optional requires exactly one of its variants (the 'some' variant) to contain data";

pub const MSG_VARIANT_KINDS: &'static str =
    "Optional needs one unit variant (the 'none' variant) and one variant with data (the 'some' variant)";

pub const MSG_NO_FIELD: &'static str = "Optional needs exactly one field in the 'some' variant";

pub const MSG_TOO_MANY_FIELDS: &'static str =
    "Optional only works when there is exactly one field in the 'some' variant";

pub const MSG_NAMED_FIELDS: &'static str =
    "Optional currently does not support named fields in the 'some' variant, only tuple variants.
Hint: Change this variant to for example ";

pub const MSG_TUPLE_ONLY: &'static str =
    "Optional currently only supports tuple variants for the 'some' variant like ";

/// A field as it is declared: its name, a colon and its type.
pub open spec fn field_text(field: Field) -> Seq<char> {
    or_empty(option_text(field.ident)) + ": "@ + field.ty@
}

/// The declarations of a list of fields.
pub open spec fn field_texts(fields: Seq<Field>) -> Seq<Seq<char>> {
    fields.map_values(|f: Field| field_text(f))
}

/// The tuple variant that a diagnostic proposes in place of a variant with
/// named fields. For no field the contents are left open; for one field it
/// is that field's type; for more it is a struct that holds them, proposed
/// along with the variant.
pub open spec fn hint(variant: Seq<char>, enum_name: Seq<char>, fields: Seq<Field>) -> Seq<char> {
    if fields.len() == 0 {
        "`"@ + variant + "(...)`"@
    } else if fields.len() == 1 {
        "`"@ + variant + "("@ + fields[0].ty@ + ")`"@
    } else {
        "`"@ + variant + "("@ + enum_name + variant + ")`\n      with `struct "@ + enum_name
            + variant + " { "@ + joined(field_texts(fields), ", "@) + " }`"@
    }
}

/// The message about a variant with named fields.
pub open spec fn named_fields_message(
    variant: Seq<char>,
    enum_name: Seq<char>,
    fields: Seq<Field>,
) -> Seq<char> {
    MSG_NAMED_FIELDS@ + hint(variant, enum_name, fields)
}

/// The message about a field by position that has a name all the same.
pub open spec fn tuple_only_message(ident: Seq<char>, ty: Seq<char>) -> Seq<char> {
    MSG_TUPLE_ONLY@ + "`"@ + ident + "("@ + ty + ")`"@
}

/// The same message at both variants.
pub open spec fn at_both(message: Seq<char>) -> Seq<Note> {
    seq![
        Note { origin: Origin::Variant(0), message },
        Note { origin: Origin::Variant(1), message },
    ]
}

/// What is wrong with the field list of the carrying variant, which is the
/// variant with index `v`: nothing if it holds exactly one field without a
/// name; one diagnostic at the variant if it holds none; one at each field
/// after the first if it holds several.
pub open spec fn field_notes(v: usize, fields: Seq<Field>) -> Seq<Note> {
    if fields.len() == 0 {
        seq![Note { origin: Origin::Variant(v), message: MSG_NO_FIELD@ }]
    } else if fields.len() > 1 {
        repeated(
            (fields.len() - 1) as nat,
            |k: int| Origin::Field(v, (k + 1) as usize),
            MSG_TOO_MANY_FIELDS@,
        )
    } else {
        match fields[0].ident {
            Some(ident) => seq![
                Note {
                    origin: Origin::FieldName(v, 0),
                    message: tuple_only_message(ident@, fields[0].ty@),
                },
            ],
            None => Seq::empty(),
        }
    }
}

/// What is wrong with two variants, the first of them `a`.
pub open spec fn pair_notes(a: Variant, b: Variant, enum_name: Seq<char>) -> Seq<Note> {
    match (a.fields, b.fields) {
        (Fields::Unnamed(fields), Fields::Unit) => field_notes(0, fields@),
        (Fields::Unit, Fields::Unnamed(fields)) => field_notes(1, fields@),
        (Fields::Named(fields), Fields::Unit) => seq![
            Note {
                origin: Origin::FieldList(0),
                message: named_fields_message(a.ident@, enum_name, fields@),
            },
        ],
        (Fields::Unit, Fields::Named(fields)) => seq![
            Note {
                origin: Origin::FieldList(1),
                message: named_fields_message(b.ident@, enum_name, fields@),
            },
        ],
        (Fields::Unnamed(_), Fields::Unnamed(_)) => at_both(MSG_NO_EMPTY_VARIANT@),
        (Fields::Unit, Fields::Unit) => at_both(MSG_NO_DATA_VARIANT@),
        _ => at_both(MSG_VARIANT_KINDS@),
    }
}

/// What is wrong with the variants of an enum; nothing if and only if the
/// enum has the shape that the generator asks for. Fewer than two variants
/// give one diagnostic at the enum's name; more than two give one at each
/// variant after the second.
pub open spec fn shape_notes(variants: Seq<Variant>, enum_name: Seq<char>) -> Seq<Note> {
    if variants.len() < 2 {
        seq![Note { origin: Origin::TypeName, message: MSG_TWO_VARIANTS@ }]
    } else if variants.len() > 2 {
        repeated(
            (variants.len() - 2) as nat,
            |k: int| Origin::Variant((k + 2) as usize),
            MSG_TOO_MANY_VARIANTS@,
        )
    } else {
        pair_notes(variants[0], variants[1], enum_name)
    }
}

/// The index of the carrying variant among two variants of the right shape.
pub open spec fn carrying_index(variants: Seq<Variant>) -> int {
    if variants[0].fields is Unnamed {
        0
    } else {
        1
    }
}

/// The field that the carrying variant holds.
pub open spec fn carried_field(variants: Seq<Variant>) -> Field {
    variants[carrying_index(variants)].fields->Unnamed_0@[0]
}

/// Writes the message about a variant with named fields.
fn build_named_fields_message(variant: &String, enum_name: &String, fields: &Vec<Field>) -> (out:
    String)
    ensures
        out@ == named_fields_message(variant@, enum_name@, fields@),
{
    let mut out = String::from_str(MSG_NAMED_FIELDS);
    let ghost start = out@;
    out.append("`");
    out.append(variant.as_str());
    if fields.len() == 0 {
        out.append("(...)`");
        assert(out@ =~= start + hint(variant@, enum_name@, fields@));
    } else if fields.len() == 1 {
        out.append("(");
        out.append(fields[0].ty.as_str());
        out.append(")`");
        assert(out@ =~= start + hint(variant@, enum_name@, fields@));
    } else {
        let mut list: Vec<String> = Vec::new();
        let mut i: usize = 0;
        while i < fields.len()
            invariant
                i <= fields.len(),
                list@.len() == i,
                texts(list@) == field_texts(fields@.take(i as int)),
            decreases fields.len() - i,
        {
            let mut text = match &fields[i].ident {
                Some(ident) => ident.clone(),
                None => String::new(),
            };
            text.append(": ");
            text.append(fields[i].ty.as_str());
            assert(text@ =~= field_text(fields@[i as int]));
            let ghost before = list@;
            list.push(text);
            assert forall|k: int| 0 <= k < list@.len() implies texts(list@)[k] == field_texts(
                fields@.take(i + 1),
            )[k] by {
                if k < i {
                    assert(texts(before)[k] == field_texts(fields@.take(i as int))[k]);
                }
            }
            assert(texts(list@) =~= field_texts(fields@.take(i + 1)));
            i += 1;
        }
        assert(fields@.take(fields.len() as int) =~= fields@);
        let all = join(&list, ", ");
        out.append("(");
        out.append(enum_name.as_str());
        out.append(variant.as_str());
        out.append(")`\n      with `struct ");
        out.append(enum_name.as_str());
        out.append(variant.as_str());
        out.append(" { ");
        out.append(all.as_str());
        out.append(" }`");
        assert(out@ =~= start + hint(variant@, enum_name@, fields@));
    }
    out
}

/// Writes the message about a field by position that has a name.
fn build_tuple_only_message(ident: &String, ty: &String) -> (out: String)
    ensures
        out@ == tuple_only_message(ident@, ty@),
{
    let mut out = String::from_str(MSG_TUPLE_ONLY);
    out.append("`");
    out.append(ident.as_str());
    out.append("(");
    out.append(ty.as_str());
    out.append(")`");
    out
}

/// The error that holds `message` at both variants.
fn error_at_both(message: &str) -> (e: Error)
    ensures
        e@ == at_both(message@),
{
    let mut builder = Error::builder();
    builder.with_spanned(Origin::Variant(0), message);
    builder.with_spanned(Origin::Variant(1), message);
    let e = Error { diagnostics: builder.diagnostics };
    assert(e@ =~= at_both(message@));
    e
}

/// Checks the field list of the carrying variant, which is the variant with
/// index `v`, and returns its one field.
fn parse_fields(v: usize, fields: &Vec<Field>) -> (r: Result<Field, Error>)
    ensures
        match r {
            Ok(field) => field_notes(v, fields@).len() == 0 && field == fields@[0],
            Err(e) => e@ == field_notes(v, fields@) && e@.len() > 0,
        },
{
    if fields.len() == 0 {
        return Err(Error::new(Origin::Variant(v), MSG_NO_FIELD));
    }
    if fields.len() > 1 {
        let mut builder = Error::builder();
        let mut k: usize = 1;
        while k < fields.len()
            invariant
                1 <= k <= fields.len(),
                builder@ == repeated(
                    (k - 1) as nat,
                    |j: int| Origin::Field(v, (j + 1) as usize),
                    MSG_TOO_MANY_FIELDS@,
                ),
            decreases fields.len() - k,
        {
            builder.with_spanned(Origin::Field(v, k), MSG_TOO_MANY_FIELDS);
            assert(builder@ =~= repeated(
                k as nat,
                |j: int| Origin::Field(v, (j + 1) as usize),
                MSG_TOO_MANY_FIELDS@,
            ));
            k += 1;
        }
        return Err(Error { diagnostics: builder.diagnostics });
    }
    match &fields[0].ident {
        Some(ident) => {
            let message = build_tuple_only_message(ident, &fields[0].ty);
            Err(Error::new(Origin::FieldName(v, 0), message.as_str()))
        },
        None => Ok(Field { ident: None, ty: fields[0].ty.clone() }),
    }
}

/// Finds the carrying variant, the empty variant and the carried field of an
/// enum, whichever of the two variants comes first.
///
/// Returns them if and only if there is nothing wrong with the variants;
/// otherwise every diagnostic that `shape_notes` lists, in that order.
pub fn parse_variants(variants: Vec<Variant>, enum_name: &String) -> (r: Result<
    (Variant, Variant, Field),
    Error,
>)
    ensures
        match r {
            Ok((some, none, field)) => {
                &&& shape_notes(variants@, enum_name@).len() == 0
                &&& some == variants@[carrying_index(variants@)]
                &&& none == variants@[1 - carrying_index(variants@)]
                &&& field == carried_field(variants@)
            },
            Err(e) => e@ == shape_notes(variants@, enum_name@) && e@.len() > 0,
        },
{
    let mut variants = variants;
    let ghost given = variants@;
    if variants.len() < 2 {
        return Err(Error::new(Origin::TypeName, MSG_TWO_VARIANTS));
    }
    if variants.len() > 2 {
        let mut builder = Error::builder();
        let mut k: usize = 2;
        while k < variants.len()
            invariant
                2 <= k <= variants.len(),
                builder@ == repeated(
                    (k - 2) as nat,
                    |j: int| Origin::Variant((j + 2) as usize),
                    MSG_TOO_MANY_VARIANTS@,
                ),
            decreases variants.len() - k,
        {
            builder.with_spanned(Origin::Variant(k), MSG_TOO_MANY_VARIANTS);
            assert(builder@ =~= repeated(
                (k - 1) as nat,
                |j: int| Origin::Variant((j + 2) as usize),
                MSG_TOO_MANY_VARIANTS@,
            ));
            k += 1;
        }
        return Err(Error { diagnostics: builder.diagnostics });
    }
    let b = variants.pop().unwrap();
    let a = variants.pop().unwrap();
    assert(a == given[0] && b == given[1]);
    let Variant { ident: a_ident, fields: a_fields } = a;
    let Variant { ident: b_ident, fields: b_fields } = b;
    match (a_fields, b_fields) {
        (Fields::Unnamed(fields), Fields::Unit) => {
            match parse_fields(0, &fields) {
                Ok(field) => Ok(
                    (
                        Variant { ident: a_ident, fields: Fields::Unnamed(fields) },
                        Variant { ident: b_ident, fields: Fields::Unit },
                        field,
                    ),
                ),
                Err(e) => Err(e),
            }
        },
        (Fields::Unit, Fields::Unnamed(fields)) => {
            match parse_fields(1, &fields) {
                Ok(field) => Ok(
                    (
                        Variant { ident: b_ident, fields: Fields::Unnamed(fields) },
                        Variant { ident: a_ident, fields: Fields::Unit },
                        field,
                    ),
                ),
                Err(e) => Err(e),
            }
        },
        (Fields::Named(fields), Fields::Unit) => {
            let message = build_named_fields_message(&a_ident, enum_name, &fields);
            Err(Error::new(Origin::FieldList(0), message.as_str()))
        },
        (Fields::Unit, Fields::Named(fields)) => {
            let message = build_named_fields_message(&b_ident, enum_name, &fields);
            Err(Error::new(Origin::FieldList(1), message.as_str()))
        },
        (Fields::Unnamed(_), Fields::Unnamed(_)) => Err(error_at_both(MSG_NO_EMPTY_VARIANT)),
        (Fields::Unit, Fields::Unit) => Err(error_at_both(MSG_NO_DATA_VARIANT)),
        _ => Err(error_at_both(MSG_VARIANT_KINDS)),
    }
}

} // verus!
