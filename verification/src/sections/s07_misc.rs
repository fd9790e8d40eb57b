//! Taking and replacing the value, looking for a value, and zipping.

use vstd::prelude::*;
use vstd::std_specs::cmp::PartialEqSpec;
use crate::container::{ContainerModel, DataContainer};
use crate::optional::Optional;
use crate::template::{
    bounds_for, bounds_text, documented, emit_documented, emit_method, method, where_for,
    where_text,
};
use crate::text::texts;

verus! {

pub const DOC_TAKE: &'static str =
    "Takes the actual value out of the `$N`, leaving a `$e` in its place. Equivalent to `Option::take`.";

pub const TAKE: &'static str = "
    #[doc = $0]
    $F take(&mut self) -> Self {
        ::std::mem::take(self)
    }
";

pub const DOC_REPLACE: &'static str =
    "Replaces the actual value in the `$N` with the provided one, returning the old value, if any. Equivalent to `Option::replace`.";

pub const REPLACE: &'static str = "
    #[doc = $0]
    $F replace(&mut self, x: $T) -> Self {
        ::std::mem::replace(self, $S(x))
    }
";

pub const DOC_CONTAINS: &'static str =
    "Returns `true` if the `$N` contains the given value. Equivalent to `Option::contains`.";

pub const CONTAINS: &'static str = "
    #[doc = $0]
    $F contains(&self, x: &$T) -> bool
    where
        $T: ::std::cmp::PartialEq,
    {
        match self {
            $S(y) => ::std::cmp::PartialEq::eq(x, y),
            _ => false,
        }
    }
";

pub const DOC_ZIP: &'static str =
    "Zips `self` with another `$N` and returns the pair of contained values if both are `$s`s. Equivalent to `Option::zip`.";

pub const ZIP: &'static str = "
    #[doc = $0]
    $F zip<U>(self, other: $N<U>) -> $N<($T, U)> $1 $2 {
        match (self, other) {
            ($S(x), $S(y)) => $S((x, y)),
            _ => $E,
        }
    }
";

pub const DOC_ZIP_WITH_GENERIC: &'static str =
    "Zips `self` with another `$N` and returns the result of the provided function if both are `$s`s. Equivalent to `Option::zip_with`.";

pub const ZIP_WITH_GENERIC: &'static str = "
    #[doc = $0]
    $F zip_with<U, F, R>(self, other: $N<U>, f: F) -> $N<R>
    where
        F: FnOnce($T, U) -> R,
        $1
        $2
    {
        match (self, other) {
            ($S(x), $S(y)) => $S(f(x, y)),
            _ => $E,
        }
    }
";

pub const DOC_ZIP_WITH_SPECIFIC: &'static str =
    "Zips `self` with another `$N` and returns the result of the provided function if both are `$s`s. Note that, since `$N` is not generic over its inner type, the function is required to return `$t`. Equivalent to `Option::zip_with`.";

pub const ZIP_WITH_SPECIFIC: &'static str = "
    #[doc = $0]
    $F zip_with<F>(self, other: Self, f: F) -> Self
    where
        F: FnOnce($T, $T) -> $T,
    {
        match (self, other) {
            ($S(x), $S(y)) => $S(f(x, y)),
            _ => $E,
        }
    }
";

/// The methods that every enum gets.
pub open spec fn common_methods(c: ContainerModel) -> Seq<char> {
    documented(TAKE@, DOC_TAKE@, c) + documented(REPLACE@, DOC_REPLACE@, c) + documented(
        CONTAINS@,
        DOC_CONTAINS@,
        c,
    )
}

/// `zip` and `zip_with` for a generic enum; for any other enum the `zip_with`
/// whose function returns the carried type, and no `zip`.
pub open spec fn zip_methods(c: ContainerModel) -> Seq<char> {
    if c.is_generic {
        method(ZIP@, DOC_ZIP@, c, seq![where_for(c, "U"@), bounds_for(c, "($T, U)"@)]) + method(
            ZIP_WITH_GENERIC@,
            DOC_ZIP_WITH_GENERIC@,
            c,
            seq![bounds_for(c, "U"@), bounds_for(c, "R"@)],
        )
    } else {
        documented(ZIP_WITH_SPECIFIC@, DOC_ZIP_WITH_SPECIFIC@, c)
    }
}

/// What `add_section` appends for an enum.
pub open spec fn section(c: ContainerModel) -> Seq<char> {
    common_methods(c) + zip_methods(c)
}

/// Appends `take`, `replace`, `contains` and the zipping methods.
pub fn add_section(container: &DataContainer, impl_block: &mut String)
    ensures
        final(impl_block)@ == old(impl_block)@ + section(container@),
{
    let ghost c = container@;
    let ghost start = impl_block@;
    emit_documented(impl_block, TAKE, DOC_TAKE, container);
    emit_documented(impl_block, REPLACE, DOC_REPLACE, container);
    emit_documented(impl_block, CONTAINS, DOC_CONTAINS, container);
    assert(impl_block@ =~= start + common_methods(c));
    if container.is_generic {
        let extras = vec![where_text(container, "U"), bounds_text(container, "($T, U)")];
        assert(texts(extras@) =~= seq![where_for(c, "U"@), bounds_for(c, "($T, U)"@)]);
        emit_method(impl_block, ZIP, DOC_ZIP, container, extras);
        let extras = vec![bounds_text(container, "U"), bounds_text(container, "R")];
        assert(texts(extras@) =~= seq![bounds_for(c, "U"@), bounds_for(c, "R"@)]);
        emit_method(impl_block, ZIP_WITH_GENERIC, DOC_ZIP_WITH_GENERIC, container, extras);
    } else {
        emit_documented(impl_block, ZIP_WITH_SPECIFIC, DOC_ZIP_WITH_SPECIFIC, container);
    }
    assert(impl_block@ =~= start + section(c));
}

impl<T> Optional<T> {
    /// What `take` returns for a value, and what it leaves behind.
    pub open spec fn after_take(self) -> (Self, Self) {
        (self, Optional::Nothing)
    }

    /// Returns the value and leaves `Nothing` in its place.
    pub fn take(&mut self) -> (r: Self)
        ensures
            (r, *final(self)) == old(self).after_take(),
    {
        let mut held = Optional::Nothing;
        core::mem::swap(self, &mut held);
        held
    }

    /// What `replace` returns for a value, and what it leaves behind.
    pub open spec fn after_replace(self, x: T) -> (Self, Self) {
        (self, Optional::Something(x))
    }

    /// Stores `x` and returns what was there before.
    pub fn replace(&mut self, x: T) -> (r: Self)
        ensures
            (r, *final(self)) == old(self).after_replace(x),
    {
        let mut held = Optional::Something(x);
        core::mem::swap(self, &mut held);
        held
    }

    /// Whether the contained value equals `x`; `false` if there is none.
    pub fn contains(&self, x: &T) -> (r: bool) where T: PartialEq
        ensures
            self is Nothing ==> !r,
            T::obeys_eq_spec() ==> r == (self matches Optional::Something(y) && x.eq_spec(&y)),
    {
        match self {
            Optional::Something(y) => PartialEq::eq(x, y),
            Optional::Nothing => false,
        }
    }

    /// The pair of the two contained values, if both are there.
    pub open spec fn zipped<U>(self, other: Optional<U>) -> Optional<(T, U)> {
        match (self, other) {
            (Optional::Something(x), Optional::Something(y)) => Optional::Something((x, y)),
            _ => Optional::Nothing,
        }
    }

    /// Pairs the contained value with that of `other`, if both are there.
    pub fn zip<U>(self, other: Optional<U>) -> (r: Optional<(T, U)>)
        ensures
            r == self.zipped(other),
    {
        match (self, other) {
            (Optional::Something(x), Optional::Something(y)) => Optional::Something((x, y)),
            _ => Optional::Nothing,
        }
    }

    /// What `f` makes of the two contained values, if both are there; `f` is
    /// not called otherwise.
    pub fn zip_with<U, F: FnOnce(T, U) -> R, R>(self, other: Optional<U>, f: F) -> (r: Optional<R>)
        requires
            self.zipped(other) matches Optional::Something(pair) ==> f.requires(pair),
        ensures
            match self.zipped(other) {
                Optional::Something(pair) => r matches Optional::Something(z) && f.ensures(
                    pair,
                    z,
                ),
                Optional::Nothing => r is Nothing,
            },
    {
        match (self, other) {
            (Optional::Something(x), Optional::Something(y)) => Optional::Something(f(x, y)),
            _ => Optional::Nothing,
        }
    }
}

} // verus!
