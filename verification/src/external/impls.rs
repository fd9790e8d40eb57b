//! Methods for particular shapes of the carried type, and equality.

use vstd::prelude::*;
use crate::container::{ContainerModel, DataContainer};
use crate::optional::Optional;
use crate::template::{
    bounds_for, bounds_text, document, documentation, emit_method, generic_only, method, where_for,
    where_text,
};
use crate::text::texts;

verus! {

pub const DOC_UNZIP: &'static str =
    "Converts a tuple of `$N<(T, U)>` into a tuple of ($N<T>, $N<U>). Equivalent to `Option::unzip`.";

pub const UNZIP: &'static str = "
#[automatically_derived]
impl<T, U> $N<(T, U)> $1 $2 $3 {
    #[doc = $0]
    pub fn unzip(self) -> ($N<T>, $N<U>) {
        match self {
            $S((x, y)) => ($S(x), $S(y)),
            _ => ($E, $E),
        }
    }
}
";

pub const DOC_COPIED: &'static str =
    "Copies the contained value into a new `$N<$t>` if it implements `Copy`. Equivalent to `Option::copied`.";

pub const DOC_CLONED: &'static str =
    "Clones the contained value into a new `$N<$t>` if it implements `Clone`. Equivalent to `Option::cloned`.";

pub const COPIED_CLONED_REF: &'static str = "
impl<'a, $T> $N<&'a $T> $1 $2 {
    #[doc = $0]
    pub fn copied(&self) -> $N<$T> where $T: Copy {
        match self {
            $S(x) => $S(**x),
            _ => $E,
        }
    }

    #[doc = $3]
    pub fn cloned(&self) -> $N<$T> where $T: Clone {
        match self {
            $S(x) => $S((*x).clone()),
            _ => $E,
        }
    }
}
";

pub const COPIED_CLONED_MUT: &'static str = "
impl<'a, $T> $N<&'a mut $T> $1 $2 {
    #[doc = $0]
    pub fn copied(&self) -> $N<$T> where $T: Copy {
        match self {
            $S(x) => $S(**x),
            _ => $E,
        }
    }

    #[doc = $3]
    pub fn cloned(&self) -> $N<$T> where $T: Clone {
        match self {
            $S(x) => $S((*x).clone()),
            _ => $E,
        }
    }
}
";

pub const DOC_TRANSPOSE: &'static str =
    "Transposes a `$N<Result<$t, E>>` into a `Result<$N<$t>, E>`. Equivalent to `Option::transpose`.";

pub const TRANSPOSE: &'static str = "
#[automatically_derived]
impl<$T, E> $N<Result<$T, E>> $1 $2 {
    #[doc = $0]
    pub fn transpose(self) -> Result<$N<$T>, E> {
        match self {
            $S(Ok(x)) => Ok($S(x)),
            $S(Err(e)) => Err(e),
            _ => Ok($E),
        }
    }
}
";

pub const DOC_FLATTEN: &'static str =
    "Flattens a double `$N<$N<$t>>` into a single `$N<$t>`. Equivalent to `Option::flatten`.";

pub const FLATTEN: &'static str = "
#[automatically_derived]
$I $N<$N<$T>> $1 {
    #[doc = $0]
    pub fn flatten(self) -> $N<$T> {
        match self {
            $S(x) => x,
            _ => $E,
        }
    }
}
";

pub const DOC_FLATTEN_OPTION: &'static str =
    "Flattens a `$N<Option<$t>>` into a single `$N<$t>`. Similar to `Option::flatten`.";

pub const FLATTEN_OPTION: &'static str = "
#[automatically_derived]
$I $N<$O<$T>> $1 {
    #[doc = $0]
    pub fn flatten(self) -> $N<$T> {
        match self {
            $S(x) => x.into(),
            _ => $E,
        }
    }
}
";

pub const DOC_EQ: &'static str =
    "Two values are equal if both are `$e`, or both are `$s` with equal contents.";

pub const EQUALITY: &'static str = "
#[automatically_derived]
impl<$T> ::std::cmp::PartialEq for $N<$T> where $T: ::std::cmp::PartialEq, $1 {
    #[doc = $0]
    fn eq(&self, other: &Self) -> bool {
        match (self, other) {
            ($S(x), $S(y)) => ::std::cmp::PartialEq::eq(x, y),
            ($E, $E) => true,
            _ => false,
        }
    }
}
";

/// The impl block that holds `unzip`.
pub open spec fn unzip_block(c: ContainerModel) -> Seq<char> {
    method(
        UNZIP@,
        DOC_UNZIP@,
        c,
        seq![where_for(c, "T"@), bounds_for(c, "U"@), bounds_for(c, "(T, U)"@)],
    )
}

/// The impl block that holds `copied` and `cloned`, for the kind of reference
/// that `code` is about and that `reference` writes.
pub open spec fn copied_cloned_block(
    c: ContainerModel,
    code: Seq<char>,
    reference: Seq<char>,
) -> Seq<char> {
    method(
        code,
        DOC_COPIED@,
        c,
        seq![where_for(c, "$T"@), bounds_for(c, reference), documentation(DOC_CLONED@, c)],
    )
}

/// The impl block that holds `transpose`.
pub open spec fn transpose_block(c: ContainerModel) -> Seq<char> {
    method(
        TRANSPOSE@,
        DOC_TRANSPOSE@,
        c,
        seq![where_for(c, "$T"@), bounds_for(c, "Result<$T, E>"@)],
    )
}

/// The impl block that holds `flatten` for an enum nested in itself.
pub open spec fn flatten_block(c: ContainerModel) -> Seq<char> {
    method(FLATTEN@, DOC_FLATTEN@, c, seq![where_for(c, "$N<$T>"@)])
}

/// The impl block that holds `flatten` for an enum that carries an `Option`.
pub open spec fn flatten_option_block(c: ContainerModel) -> Seq<char> {
    method(FLATTEN_OPTION@, DOC_FLATTEN_OPTION@, c, seq![where_for(c, "$O<$T>"@)])
}

/// The implementation of equality.
pub open spec fn equality_block(c: ContainerModel) -> Seq<char> {
    method(EQUALITY@, DOC_EQ@, c, seq![bounds_for(c, "$T"@)])
}

/// What `add_external` appends for an enum: nothing unless the enum is
/// generic in the carried type, else the seven blocks in this order.
pub open spec fn external_impls(c: ContainerModel) -> Seq<char> {
    generic_only(
        c,
        unzip_block(c) + copied_cloned_block(c, COPIED_CLONED_REF@, "&'a $T"@)
            + copied_cloned_block(c, COPIED_CLONED_MUT@, "&'a mut $T"@) + transpose_block(c)
            + flatten_block(c) + flatten_option_block(c) + equality_block(c),
    )
}

/// Appends the methods for particular shapes of the carried type, and equality.
pub fn add_external(container: &DataContainer, additional_impls: &mut String)
    ensures
        final(additional_impls)@ == old(additional_impls)@ + external_impls(container@),
{
    let ghost c = container@;
    if !container.is_generic {
        assert(old(additional_impls)@ + Seq::<char>::empty() =~= old(additional_impls)@);
        return;
    }
    // unzip, for a carried pair
    let extras = vec![
        where_text(container, "T"),
        bounds_text(container, "U"),
        bounds_text(container, "(T, U)"),
    ];
    assert(texts(extras@) =~= seq![
        where_for(c, "T"@),
        bounds_for(c, "U"@),
        bounds_for(c, "(T, U)"@),
    ]);
    emit_method(additional_impls, UNZIP, DOC_UNZIP, container, extras);

    // copied and cloned, for a carried reference
    let extras = vec![
        where_text(container, "$T"),
        bounds_text(container, "&'a $T"),
        document(DOC_CLONED, container),
    ];
    assert(texts(extras@) =~= seq![
        where_for(c, "$T"@),
        bounds_for(c, "&'a $T"@),
        documentation(DOC_CLONED@, c),
    ]);
    emit_method(additional_impls, COPIED_CLONED_REF, DOC_COPIED, container, extras);

    // copied and cloned, for a carried mutable reference
    let extras = vec![
        where_text(container, "$T"),
        bounds_text(container, "&'a mut $T"),
        document(DOC_CLONED, container),
    ];
    assert(texts(extras@) =~= seq![
        where_for(c, "$T"@),
        bounds_for(c, "&'a mut $T"@),
        documentation(DOC_CLONED@, c),
    ]);
    emit_method(additional_impls, COPIED_CLONED_MUT, DOC_COPIED, container, extras);

    // transpose, for a carried result
    let extras = vec![where_text(container, "$T"), bounds_text(container, "Result<$T, E>")];
    assert(texts(extras@) =~= seq![where_for(c, "$T"@), bounds_for(c, "Result<$T, E>"@)]);
    emit_method(additional_impls, TRANSPOSE, DOC_TRANSPOSE, container, extras);

    // flatten, for an enum nested in itself
    let extras = vec![where_text(container, "$N<$T>")];
    assert(texts(extras@) =~= seq![where_for(c, "$N<$T>"@)]);
    emit_method(additional_impls, FLATTEN, DOC_FLATTEN, container, extras);

    // flatten, for a carried `Option`
    let extras = vec![where_text(container, "$O<$T>")];
    assert(texts(extras@) =~= seq![where_for(c, "$O<$T>"@)]);
    emit_method(additional_impls, FLATTEN_OPTION, DOC_FLATTEN_OPTION, container, extras);

    // equality
    let extras = vec![bounds_text(container, "$T")];
    assert(texts(extras@) =~= seq![bounds_for(c, "$T"@)]);
    emit_method(additional_impls, EQUALITY, DOC_EQ, container, extras);

    assert(additional_impls@ =~= old(additional_impls)@ + external_impls(c));
}

impl<T, U> Optional<(T, U)> {
    /// The two halves of a carried pair, each `Nothing` where there is no pair.
    pub open spec fn unzipped(self) -> (Optional<T>, Optional<U>) {
        match self {
            Optional::Something((x, y)) => (Optional::Something(x), Optional::Something(y)),
            Optional::Nothing => (Optional::Nothing, Optional::Nothing),
        }
    }

    /// Splits a carried pair in two.
    pub fn unzip(self) -> (r: (Optional<T>, Optional<U>))
        ensures
            r == self.unzipped(),
    {
        match self {
            Optional::Something((x, y)) => (Optional::Something(x), Optional::Something(y)),
            Optional::Nothing => (Optional::Nothing, Optional::Nothing),
        }
    }
}

impl<'a, T> Optional<&'a T> {
    /// Copies the value behind a carried reference.
    pub fn copied(&self) -> (r: Optional<T>) where T: Copy
        ensures
            r == match *self {
                Optional::Something(x) => Optional::Something(*x),
                Optional::Nothing => Optional::Nothing,
            },
    {
        match self {
            Optional::Something(x) => Optional::Something(**x),
            Optional::Nothing => Optional::Nothing,
        }
    }

    /// Clones the value behind a carried reference.
    pub fn cloned(&self) -> (r: Optional<T>) where T: Clone
        ensures
            match *self {
                Optional::Something(x) => r matches Optional::Something(y) && cloned(*x, y),
                Optional::Nothing => r is Nothing,
            },
    {
        match self {
            Optional::Something(x) => Optional::Something((*x).clone()),
            Optional::Nothing => Optional::Nothing,
        }
    }
}

impl<'a, T> Optional<&'a mut T> {
    /// Copies the value behind a carried mutable reference.
    pub fn copied(&self) -> (r: Optional<T>) where T: Copy
        ensures
            r == match *self {
                Optional::Something(x) => Optional::Something(*x),
                Optional::Nothing => Optional::Nothing,
            },
    {
        match self {
            Optional::Something(x) => Optional::Something(**x),
            Optional::Nothing => Optional::Nothing,
        }
    }

    /// Clones the value behind a carried mutable reference.
    pub fn cloned(&self) -> (r: Optional<T>) where T: Clone
        ensures
            match *self {
                Optional::Something(x) => r matches Optional::Something(y) && cloned(*x, y),
                Optional::Nothing => r is Nothing,
            },
    {
        match self {
            Optional::Something(x) => Optional::Something((**x).clone()),
            Optional::Nothing => Optional::Nothing,
        }
    }
}

impl<T, E> Optional<Result<T, E>> {
    /// An optional result turned inside out.
    pub open spec fn transposed(self) -> Result<Optional<T>, E> {
        match self {
            Optional::Something(Ok(x)) => Ok(Optional::Something(x)),
            Optional::Something(Err(e)) => Err(e),
            Optional::Nothing => Ok(Optional::Nothing),
        }
    }

    /// Turns an optional result into the result of an optional value.
    pub fn transpose(self) -> (r: Result<Optional<T>, E>)
        ensures
            r == self.transposed(),
    {
        match self {
            Optional::Something(Ok(x)) => Ok(Optional::Something(x)),
            Optional::Something(Err(e)) => Err(e),
            Optional::Nothing => Ok(Optional::Nothing),
        }
    }
}

impl<T> Optional<Optional<T>> {
    /// The inner value of a nested one.
    pub open spec fn flattened(self) -> Optional<T> {
        match self {
            Optional::Something(x) => x,
            Optional::Nothing => Optional::Nothing,
        }
    }

    /// Removes one level of nesting.
    pub fn flatten(self) -> (r: Optional<T>)
        ensures
            r == self.flattened(),
    {
        match self {
            Optional::Something(x) => x,
            Optional::Nothing => Optional::Nothing,
        }
    }
}

impl<T> Optional<Option<T>> {
    /// The inner value of a carried `Option`.
    pub open spec fn flattened(self) -> Optional<T> {
        match self {
            Optional::Something(Some(x)) => Optional::Something(x),
            _ => Optional::Nothing,
        }
    }

    /// Removes one level of nesting where the inner level is an `Option`.
    pub fn flatten(self) -> (r: Optional<T>)
        ensures
            r == self.flattened(),
    {
        match self {
            Optional::Something(Some(x)) => Optional::Something(x),
            _ => Optional::Nothing,
        }
    }
}

} // verus!
