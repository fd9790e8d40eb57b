//! The generics of the enum: at most one parameter, a type, which is the
//! carried type; and no bound on anything else.

use vstd::prelude::*;
use crate::definition::{GenericParam, Generics, WherePredicate};
use crate::text::{option_texts, texts};
use crate::utils::{Error, Note, Origin};

verus! {

pub const MSG_ONE_GENERIC: &'static str = "Optional currently only supports one generic type";

pub const MSG_ONLY_TYPES: &'static str = "Optional currently only supports a generic type";

pub const MSG_WHERE: &'static str =
    "Optional currently only supports where clauses on the generic type";

pub const MSG_MISMATCH: &'static str =
    "The generic type must be the same as the type in the 'some' variant";

/// The index of the first type parameter among the first `n` parameters.
pub open spec fn first_type_param(params: Seq<GenericParam>, n: int) -> Option<int>
    decreases n,
{
    if n <= 0 {
        None
    } else {
        match first_type_param(params, n - 1) {
            Some(i) => Some(i),
            None => if params[n - 1] is Type {
                Some(n - 1)
            } else {
                None
            },
        }
    }
}

/// What is wrong with the first `n` parameters: one diagnostic at each
/// parameter that is not a type, and one at each type parameter after the
/// first.
pub open spec fn param_notes(params: Seq<GenericParam>, n: int) -> Seq<Note>
    decreases n,
{
    if n <= 0 {
        Seq::empty()
    } else {
        let before = param_notes(params, n - 1);
        let origin = Origin::Param((n - 1) as usize);
        if !(params[n - 1] is Type) {
            before.push(Note { origin, message: MSG_ONLY_TYPES@ })
        } else if first_type_param(params, n - 1) is Some {
            before.push(Note { origin, message: MSG_ONE_GENERIC@ })
        } else {
            before
        }
    }
}

/// Whether a predicate bounds the type that is written as the identifier `name`.
pub open spec fn bounds_type(predicate: WherePredicate, name: Seq<char>) -> bool {
    predicate.bounded_ident matches Some(ident) && ident@ == name
}

/// What is wrong with the first `n` predicates of the where clause: one
/// diagnostic at each predicate that does not bound the carried type.
pub open spec fn predicate_notes(predicates: Seq<WherePredicate>, name: Seq<char>, n: int) -> Seq<
    Note,
>
    decreases n,
{
    if n <= 0 {
        Seq::empty()
    } else {
        let before = predicate_notes(predicates, name, n - 1);
        if bounds_type(predicates[n - 1], name) {
            before
        } else {
            before.push(Note { origin: Origin::Predicate((n - 1) as usize), message: MSG_WHERE@ })
        }
    }
}

/// The bounds of the first type parameter among the first `n` parameters.
pub open spec fn inline_bounds(params: Seq<GenericParam>, n: int) -> Seq<Seq<char>> {
    match first_type_param(params, n) {
        Some(i) => texts(params[i]->Type_0.bounds@),
        None => Seq::empty(),
    }
}

/// The bounds that the first `n` predicates state of the carried type, in order.
pub open spec fn where_bounds(predicates: Seq<WherePredicate>, name: Seq<char>, n: int) -> Seq<
    Seq<char>,
>
    decreases n,
{
    if n <= 0 {
        Seq::empty()
    } else {
        let before = where_bounds(predicates, name, n - 1);
        if bounds_type(predicates[n - 1], name) {
            before + texts(predicates[n - 1].bounds@)
        } else {
            before
        }
    }
}

/// What the generics of an enum come to, for a carried type that is written
/// `name`.
///
/// Every parameter and predicate that is not supported gives a diagnostic,
/// parameters first. Where there is none, a type parameter that is not the
/// carried type gives one diagnostic at its name. Otherwise the result is
/// `None` for an enum without a type parameter, else the bounds on the
/// parameter: those written beside it, then those of the where clause.
pub open spec fn generics_outcome(generics: Generics, name: Seq<char>) -> Result<
    Option<Seq<Seq<char>>>,
    Seq<Note>,
> {
    let params = generics.params@;
    let predicates = generics.predicates@;
    let notes = param_notes(params, params.len() as int) + predicate_notes(
        predicates,
        name,
        predicates.len() as int,
    );
    if notes.len() > 0 {
        Err(notes)
    } else {
        match first_type_param(params, params.len() as int) {
            Some(i) => if params[i]->Type_0.ident@ == name {
                Ok(
                    Some(
                        inline_bounds(params, params.len() as int) + where_bounds(
                            predicates,
                            name,
                            predicates.len() as int,
                        ),
                    ),
                )
            } else {
                Err(seq![Note { origin: Origin::ParamName(i as usize), message: MSG_MISMATCH@ }])
            },
            None => Ok(None),
        }
    }
}

/// The first type parameter, if there is one, has its index among the parameters.
pub proof fn lemma_first_type_param(params: Seq<GenericParam>, n: int)
    requires
        0 <= n <= params.len(),
    ensures
        first_type_param(params, n) matches Some(i) ==> 0 <= i < n && params[i] is Type,
    decreases n,
{
    if n > 0 {
        lemma_first_type_param(params, n - 1);
    }
}

/// Where nothing is wrong with the first `n` parameters, there is at most
/// one of them, and it is a type.
pub proof fn lemma_param_notes_empty(params: Seq<GenericParam>, n: int)
    requires
        0 <= n <= params.len(),
        param_notes(params, n).len() == 0,
    ensures
        n <= 1,
        n == 0 ==> first_type_param(params, n) is None,
        n == 1 ==> params[0] is Type && first_type_param(params, n) == Some(0int),
    decreases n,
{
    if n > 0 {
        let before = param_notes(params, n - 1);
        if !(params[n - 1] is Type) || first_type_param(params, n - 1) is Some {
            assert(param_notes(params, n).len() == before.len() + 1);
        }
        lemma_param_notes_empty(params, n - 1);
    }
}

/// Where nothing is wrong with the first `n` predicates, each of them
/// bounds the type that is written `name`.
pub proof fn lemma_predicate_notes_empty(predicates: Seq<WherePredicate>, name: Seq<char>, n: int)
    requires
        0 <= n <= predicates.len(),
        predicate_notes(predicates, name, n).len() == 0,
    ensures
        forall|j: int| 0 <= j < n ==> bounds_type(#[trigger] predicates[j], name),
    decreases n,
{
    if n > 0 {
        if !bounds_type(predicates[n - 1], name) {
            assert(predicate_notes(predicates, name, n).len() == predicate_notes(
                predicates,
                name,
                n - 1,
            ).len() + 1);
        }
        lemma_predicate_notes_empty(predicates, name, n - 1);
    }
}

/// Appends copies of the strings of `from` to `to`.
fn extend_with(to: &mut Vec<String>, from: &Vec<String>)
    ensures
        texts(final(to)@) == texts(old(to)@) + texts(from@),
{
    let mut k: usize = 0;
    while k < from.len()
        invariant
            k <= from.len(),
            texts(to@) == texts(old(to)@) + texts(from@.take(k as int)),
        decreases from.len() - k,
    {
        let ghost before = to@;
        to.push(from[k].clone());
        assert(texts(to@) =~= texts(before).push(from@[k as int]@));
        assert(texts(from@.take(k + 1)) =~= texts(from@.take(k as int)).push(from@[k as int]@));
        assert(texts(to@) =~= texts(old(to)@) + texts(from@.take(k + 1)));
        k += 1;
    }
    assert(from@.take(from.len() as int) =~= from@);
    assert(texts(old(to)@) + texts(from@.take(0)) =~= texts(old(to)@)) by {
        assert(texts(from@.take(0)) =~= Seq::<Seq<char>>::empty());
    }
}

/// Checks the generics of an enum whose carried type is written `some_ty_name`.
///
/// Returns `Ok(None)` for an enum that is not generic and `Ok(Some(bounds))`
/// for one that is generic in the carried type; otherwise every diagnostic
/// that `generics_outcome` lists.
pub fn check_generics(generics: Generics, some_ty_name: &String) -> (r: Result<
    Option<Vec<String>>,
    Error,
>)
    ensures
        match generics_outcome(generics, some_ty_name@) {
            Ok(bounds) => r matches Ok(found) && option_texts(found) == bounds,
            Err(notes) => r matches Err(e) && e@ == notes,
        },
{
    let ghost name = some_ty_name@;
    let ghost params = generics.params@;
    let ghost predicates = generics.predicates@;
    let mut generic_type: Option<usize> = None;
    let mut out_bounds: Vec<String> = Vec::new();
    let mut error = Error::builder();
    assert(texts(out_bounds@) =~= Seq::<Seq<char>>::empty());

    let mut i: usize = 0;
    while i < generics.params.len()
        invariant
            i <= generics.params.len(),
            params == generics.params@,
            error@ == param_notes(params, i as int),
            match first_type_param(params, i as int) {
                Some(k) => generic_type == Some(k as usize) && 0 <= k < i,
                None => generic_type is None,
            },
            texts(out_bounds@) == inline_bounds(params, i as int),
        decreases generics.params.len() - i,
    {
        proof {
            lemma_first_type_param(params, i as int);
        }
        match &generics.params[i] {
            GenericParam::Type(ty) => {
                if generic_type.is_some() {
                    error.with_spanned(Origin::Param(i), MSG_ONE_GENERIC);
                } else {
                    generic_type = Some(i);
                    extend_with(&mut out_bounds, &ty.bounds);
                    assert(texts(out_bounds@) =~= texts(ty.bounds@));
                }
            },
            _ => {
                error.with_spanned(Origin::Param(i), MSG_ONLY_TYPES);
            },
        }
        i += 1;
    }

    let ghost inline = texts(out_bounds@);
    let mut j: usize = 0;
    assert(texts(out_bounds@) =~= inline + where_bounds(predicates, name, 0));
    assert(error@ =~= param_notes(params, params.len() as int) + predicate_notes(
        predicates,
        name,
        0,
    ));
    while j < generics.predicates.len()
        invariant
            j <= generics.predicates.len(),
            predicates == generics.predicates@,
            name == some_ty_name@,
            error@ == param_notes(params, params.len() as int) + predicate_notes(
                predicates,
                name,
                j as int,
            ),
            texts(out_bounds@) == inline + where_bounds(predicates, name, j as int),
        decreases generics.predicates.len() - j,
    {
        let ghost notes_before = error@;
        let ghost bounds_before = texts(out_bounds@);
        let matches_type = match &generics.predicates[j].bounded_ident {
            Some(ident) => *ident == *some_ty_name,
            None => false,
        };
        if matches_type {
            extend_with(&mut out_bounds, &generics.predicates[j].bounds);
            assert(texts(out_bounds@) =~= inline + where_bounds(predicates, name, j + 1));
        } else {
            error.with_spanned(Origin::Predicate(j), MSG_WHERE);
            assert(error@ =~= param_notes(params, params.len() as int) + predicate_notes(
                predicates,
                name,
                j + 1,
            ));
        }
        j += 1;
    }

    match error.ok_or_build() {
        Err(e) => {
            return Err(e);
        },
        Ok(_) => {},
    }
    match generic_type {
        Some(k) => {
            proof {
                lemma_first_type_param(params, params.len() as int);
            }
            match &generics.params[k] {
                GenericParam::Type(ty) => {
                    if ty.ident != *some_ty_name {
                        return Err(Error::new(Origin::ParamName(k), MSG_MISMATCH));
                    }
                },
                _ => {},
            }
            Ok(Some(out_bounds))
        },
        None => Ok(None),
    }
}

} // verus!
