//! Laws: what holds of what the generator accepts and writes, and of the
//! methods of the model enum together.

use vstd::prelude::*;
use vstd::std_specs::convert::FromSpec;
use crate::container::ContainerModel;
use crate::definition::{Fields, GenericParam, Generics, Variant};
use crate::generics::{
    bounds_type, generics_outcome, lemma_param_notes_empty, lemma_predicate_notes_empty,
    param_notes, predicate_notes,
};
use crate::optional::Optional;
use crate::shape::{carrying_index, field_notes, shape_notes};
use crate::text::{denoted, escaped, escaped_char, unescaped_char};

verus! {

/// Where there is nothing wrong with two variants, one of them holds exactly
/// one field by position, without a name, and the other is a unit variant.
pub proof fn law_accepted_shape(variants: Seq<Variant>, enum_name: Seq<char>)
    requires
        shape_notes(variants, enum_name).len() == 0,
    ensures
        variants.len() == 2,
        variants[carrying_index(variants)].fields matches Fields::Unnamed(fields)
            && fields@.len() == 1 && fields@[0].ident is None,
        variants[1 - carrying_index(variants)].fields is Unit,
{
    if variants.len() > 2 {
        assert(shape_notes(variants, enum_name).len() == variants.len() - 2);
    }
    match (variants[0].fields, variants[1].fields) {
        (Fields::Unnamed(fields), Fields::Unit) => {
            if fields@.len() > 1 {
                assert(field_notes(0, fields@).len() == fields@.len() - 1);
            }
        },
        (Fields::Unit, Fields::Unnamed(fields)) => {
            if fields@.len() > 1 {
                assert(field_notes(1, fields@).len() == fields@.len() - 1);
            }
        },
        _ => {},
    }
}

/// Where the generics of an enum are accepted, nothing but the carried type
/// is bounded. An enum that is found generic has exactly one parameter, a
/// type parameter with the name of the carried type; an enum that is found
/// not generic has no parameter at all. Where they are refused, there is at
/// least one diagnostic.
pub proof fn law_accepted_generics(generics: Generics, name: Seq<char>)
    ensures
        match generics_outcome(generics, name) {
            Ok(found) => {
                &&& forall|j: int|
                    0 <= j < generics.predicates@.len() ==> bounds_type(
                        #[trigger] generics.predicates@[j],
                        name,
                    )
                &&& match found {
                    Some(_) => {
                        &&& generics.params@.len() == 1
                        &&& generics.params@[0] matches GenericParam::Type(ty) && ty.ident@ == name
                    },
                    None => generics.params@.len() == 0,
                }
            },
            Err(notes) => notes.len() > 0,
        },
{
    let params = generics.params@;
    let predicates = generics.predicates@;
    let first = param_notes(params, params.len() as int);
    let second = predicate_notes(predicates, name, predicates.len() as int);
    if (first + second).len() == 0 {
        assert(first.len() == 0 && second.len() == 0);
        lemma_param_notes_empty(params, params.len() as int);
        lemma_predicate_notes_empty(predicates, name, predicates.len() as int);
    }
}

/// In a well-formed model, variants with different names have different
/// paths: a pattern for the one never stands for the other.
pub proof fn law_variant_paths_differ(c: ContainerModel)
    requires
        c.wf(),
        c.some_name != c.none_name,
    ensures
        c.some != c.none,
{
    let prefix = c.name + "::"@;
    assert((prefix + c.some_name).skip(prefix.len() as int) =~= c.some_name);
    assert((prefix + c.none_name).skip(prefix.len() as int) =~= c.none_name);
}

/// An escaped text denotes the text that was escaped.
pub proof fn law_escaped_denotes(text: Seq<char>)
    ensures
        denoted(escaped(text)) == text,
    decreases text.len(),
{
    if text.len() > 0 {
        let head = escaped_char(text[0]);
        let tail = escaped(text.skip(1));
        law_escaped_denotes(text.skip(1));
        if head.len() == 2 {
            assert((head + tail).skip(2) =~= tail);
            assert(unescaped_char(head[1]) == text[0]);
        } else {
            assert((head + tail).skip(1) =~= tail);
        }
        assert(seq![text[0]] + text.skip(1) =~= text);
    }
}


/// Wrapping a value and converting the result to an `Option` gives `Some` of
/// the value, and `Nothing` converts to `None`. The conversions between the
/// enum and `Option` undo each other, in both directions.
pub proof fn law_round_trip<T>(v: T, s: Optional<T>, o: Option<T>)
    ensures
        <Option<T> as FromSpec<Optional<T>>>::from_spec(
            <Optional<T> as FromSpec<T>>::from_spec(v),
        ) == Some(v),
        <Option<T> as FromSpec<Optional<T>>>::from_spec(Optional::Nothing) == None::<T>,
        <Optional<T> as FromSpec<Option<T>>>::from_spec(
            <Option<T> as FromSpec<Optional<T>>>::from_spec(s),
        ) == s,
        <Option<T> as FromSpec<Optional<T>>>::from_spec(
            <Optional<T> as FromSpec<Option<T>>>::from_spec(o),
        ) == o,
{
}

/// Of the two predicates, exactly one holds of every value.
pub proof fn law_predicates_complement<T>(s: Optional<T>)
    ensures
        s.is_something() != s.is_nothing(),
{
}

/// Taking from a value that holds nothing returns nothing and leaves
/// nothing; so does every `take` after the first.
pub proof fn law_take_idempotent<T>(s: Optional<T>)
    ensures
        Optional::<T>::Nothing.after_take() == (Optional::<T>::Nothing, Optional::<T>::Nothing),
        s.after_take().1.after_take() == (Optional::<T>::Nothing, Optional::<T>::Nothing),
{
}

/// Mapping with a function that returns its argument gives the value back.
pub proof fn law_map_identity<T, F: FnOnce(T) -> T>(s: Optional<T>, f: F, r: Optional<T>)
    requires
        forall|x: T, y: T| f.ensures((x,), y) ==> y == x,
        s.mapped(f, r),
    ensures
        r == s,
{
}

/// Where the carried type has one default value, `unwrap_or_default` gives
/// what `unwrap_or` gives for that value.
pub proof fn law_unwrap_or_default<T: Default>(s: Optional<T>, default_value: T, r: T)
    requires
        forall|v: T| call_ensures(T::default, (), v) ==> v == default_value,
        s.unwrapped_or_default(r),
    ensures
        r == s.unwrap_or_value(default_value),
{
}

/// Zipping in the other order gives the pairs in the other order: both
/// results hold a pair or neither does, and each pair is the other one
/// swapped.
pub proof fn law_zip_symmetry<T, U>(a: Optional<T>, b: Optional<U>, x: T, y: U)
    ensures
        a.zipped(b) == Optional::Something((x, y)) <==> b.zipped(a) == Optional::Something((y, x)),
        a.zipped(b) is Nothing <==> b.zipped(a) is Nothing,
        a.zipped(b) is Something <==> a is Something && b is Something,
{
}

} // verus!
