//! Generates, for an enum with one variant that carries a value and one that
//! carries none, the methods and trait implementations that `Option` offers,
//! as Rust source text.
//!
//! The work is done in four steps: `shape::parse_variants` finds the two
//! variants and the carried field, `generics::check_generics` settles whether
//! the enum is generic in the carried type, `DataContainer::assemble` builds
//! the model of the enum, and `generate` runs the generators over the model.
//! `optional_internal` runs the four in sequence.

use vstd::prelude::*;
use crate::container::{model_of, snake_case, to_snake_case, ContainerModel, DataContainer};
use crate::definition::{Data, DeriveInput};
use crate::generics::{check_generics, generics_outcome};
use crate::shape::{carried_field, carrying_index, parse_variants, shape_notes};
use crate::template::{emit, expansion};
use crate::text::texts;
use crate::utils::{Error, Note, Origin};

pub mod container;
pub mod definition;
pub mod external;
pub mod generics;
pub mod laws;
pub mod optional;
pub mod sections;
pub mod shape;
pub mod template;
pub mod text;
pub mod utils;

verus! {

pub const MSG_ENUM_ONLY: &'static str = "Optional can only be used on enums";

/// The whole emission: the enum's own impl block around argument `0`,
/// followed by argument `1`.
pub const WHOLE: &'static str = "$I $Q {$0}
$1";

/// The methods of the enum's own impl block: the groups in the order in
/// which they are emitted, which is the same for every enum.
pub open spec fn impl_block(c: ContainerModel) -> Seq<char> {
    sections::s99_additions::section(c) + sections::s05_bool_ops::section(c)
        + sections::s06_entry_ops::section(c) + sections::s03_get_contained::section(c)
        + sections::s05_iters::section(c) + sections::s07_misc::section(c)
        + sections::s01_querying::section(c) + sections::s02_ref_adapters::section(c)
        + sections::s04_transformers::section(c)
}

/// What follows the enum's own impl block: the implementations of the
/// standard traits, then the methods for particular shapes of the carried type.
pub open spec fn additional_impls(c: ContainerModel, try_op: bool) -> Seq<char> {
    external::traits::external_traits(c, try_op) + external::impls::external_impls(c)
}

/// Everything that is generated for an enum with the given model.
pub open spec fn rendered(c: ContainerModel, try_op: bool) -> Seq<char> {
    expansion(WHOLE@, c, seq![impl_block(c), additional_impls(c, try_op)])
}

/// Runs every generator over the model of an enum and returns the text of
/// all that they emit.
pub fn generate(container: &DataContainer, try_op: bool) -> (out: String)
    ensures
        out@ == rendered(container@, try_op),
{
    let ghost c = container@;
    let mut block = String::new();
    sections::s99_additions::add_section(container, &mut block);
    sections::s05_bool_ops::add_section(container, &mut block);
    sections::s06_entry_ops::add_section(container, &mut block);
    sections::s03_get_contained::add_section(container, &mut block);
    sections::s05_iters::add_section(container, &mut block);
    sections::s07_misc::add_section(container, &mut block);
    sections::s01_querying::add_section(container, &mut block);
    sections::s02_ref_adapters::add_section(container, &mut block);
    sections::s04_transformers::add_section(container, &mut block);
    assert(block@ =~= impl_block(c));

    let mut additional = String::new();
    external::traits::add_external(container, &mut additional, try_op);
    external::impls::add_external(container, &mut additional);
    assert(additional@ =~= additional_impls(c, try_op));

    let args = vec![block, additional];
    assert(texts(args@) =~= seq![impl_block(c), additional_impls(c, try_op)]);
    let mut out = String::new();
    emit(&mut out, WHOLE, container, &args);
    assert(out@ =~= rendered(c, try_op));
    out
}

/// What the generator answers to a definition: the text that it emits, or
/// the diagnostics with which it refuses the definition.
///
/// A definition that is no enum is refused at its keyword. An enum is
/// refused with what is wrong with its variants, if anything is; else with
/// what is wrong with its generics, if anything is. Otherwise the text is
/// what `rendered` gives for the model of the enum, in which the two
/// variants' names also stand in snake case.
pub open spec fn emission(input: DeriveInput, try_op: bool) -> Result<Seq<char>, Seq<Note>> {
    match input.data {
        Data::Enum(variants) => {
            let name = input.ident@;
            if shape_notes(variants@, name).len() > 0 {
                Err(shape_notes(variants@, name))
            } else {
                let some = variants@[carrying_index(variants@)].ident@;
                let none = variants@[1 - carrying_index(variants@)].ident@;
                let ty = carried_field(variants@).ty@;
                match generics_outcome(input.generics, ty) {
                    Ok(bounds) => Ok(
                        rendered(
                            model_of(
                                name,
                                some,
                                none,
                                snake_case(some),
                                snake_case(none),
                                ty,
                                bounds,
                            ),
                            try_op,
                        ),
                    ),
                    Err(notes) => Err(notes),
                }
            }
        },
        _ => Err(seq![Note { origin: Origin::Keyword, message: MSG_ENUM_ONLY@ }]),
    }
}

/// Generates the methods and trait implementations for a definition, or
/// says what is wrong with it. Nothing is emitted for a definition that is
/// refused. The implementation of the `?` operator is part of the text if
/// and only if `try_op` is set.
pub fn optional_internal(input: DeriveInput, try_op: bool) -> (r: Result<String, Error>)
    ensures
        match emission(input, try_op) {
            Ok(text) => r matches Ok(out) && out@ == text,
            Err(notes) => r matches Err(e) && e@ == notes && e@.len() > 0,
        },
{
    let DeriveInput { ident: name, generics, data } = input;
    let variants = match data {
        Data::Enum(variants) => variants,
        _ => {
            return Err(Error::new(Origin::Keyword, MSG_ENUM_ONLY));
        },
    };
    let (some_variant, none_variant, some_field) = match parse_variants(variants, &name) {
        Ok(found) => found,
        Err(e) => {
            return Err(e);
        },
    };
    let some_name = some_variant.ident;
    let none_name = none_variant.ident;
    let some_name_snake = to_snake_case(some_name.as_str());
    let none_name_snake = to_snake_case(none_name.as_str());
    let some_ty = some_field.ty;
    let bounds = match check_generics(generics, &some_ty) {
        Ok(bounds) => bounds,
        Err(e) => {
            return Err(e);
        },
    };
    let container = DataContainer::assemble(
        name,
        some_name,
        none_name,
        some_name_snake,
        none_name_snake,
        some_ty,
        bounds,
    );
    Ok(generate(&container, try_op))
}

} // verus!
