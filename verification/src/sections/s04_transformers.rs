//! Transforming contained values.

use vstd::prelude::*;
use crate::container::{ContainerModel, DataContainer};
use crate::optional::Optional;
use crate::template::{documented, emit_documented, generic_only};

verus! {

pub const DOC_MAP: &'static str =
    "Maps an `$N<$t>` to `$N<U>` by applying a function to a contained value. Equivalent to `Option::map`.";

pub const MAP: &'static str = "
    #[doc = $0]
    $F map<U, F>(self, f: F) -> $N<U>
    where
        F: FnOnce($T) -> U,
    {
        match self {
            $S(x) => $S(f(x)),
            _ => $E,
        }
    }
";

pub const DOC_MAP_OR: &'static str =
    "Applies a function to the contained value (if any), or returns the provided default (if not). Equivalent to `Option::map_or`.";

pub const MAP_OR: &'static str = "
    #[doc = $0]
    $F map_or<U, F>(self, default: U, f: F) -> U
    where
        F: FnOnce($T) -> U,
    {
        match self {
            $S(x) => f(x),
            _ => default,
        }
    }
";

pub const DOC_MAP_OR_ELSE: &'static str =
    "Applies a function to the contained value (if any), or calls the provided function to compute a default (if not). Equivalent to `Option::map_or_else`.";

pub const MAP_OR_ELSE: &'static str = "
    #[doc = $0]
    $F map_or_else<U, D, F>(self, default: D, f: F) -> U
    where
        D: FnOnce() -> U,
        F: FnOnce($T) -> U,
    {
        match self {
            $S(x) => f(x),
            _ => default(),
        }
    }
";

pub const DOC_OK_OR: &'static str =
    "Transforms the `$q` into a `Result<$t, E>`, mapping `$s(x)` to `Ok(x)` and `$e` to `Err(err)`. Equivalent to `Option::ok_or`.";

pub const OK_OR: &'static str = "
    #[doc = $0]
    $F ok_or<E>(self, err: E) -> ::std::result::Result<$T, E> {
        match self {
            $S(x) => ::std::result::Result::Ok(x),
            _ => ::std::result::Result::Err(err),
        }
    }
";

pub const DOC_OK_OR_ELSE: &'static str =
    "Transforms the `$q` into a `Result<$t, E>`, mapping `$s(x)` to `Ok(x)` and `$e` to `Err(err())`. Equivalent to `Option::ok_or_else`.";

pub const OK_OR_ELSE: &'static str = "
    #[doc = $0]
    $F ok_or_else<E, F>(self, err: F) -> ::std::result::Result<$T, E>
    where
        F: FnOnce() -> E,
    {
        match self {
            $S(x) => ::std::result::Result::Ok(x),
            _ => ::std::result::Result::Err(err()),
        }
    }
";

pub const DOC_AS_DEREF: &'static str =
    "Creates a `$N<&$t::Target>` from an `&$N<$t>`. Equivalent to `Option::as_deref`.";

pub const AS_DEREF: &'static str = "
    #[doc = $0]
    $F as_deref(&self) -> $N<&<$T as ::std::ops::Deref>::Target>
    where
        $T: ::std::ops::Deref,
    {
        match self.as_ref() {
            $S(x) => $S(x.deref()),
            _ => $E,
        }
    }
";

pub const DOC_AS_DEREF_MUT: &'static str =
    "Creates a `$N<&mut $t::Target>` from an `&mut $N<$t>`. Equivalent to `Option::as_deref_mut`.";

pub const AS_DEREF_MUT: &'static str = "
    #[doc = $0]
    $F as_deref_mut(&mut self) -> $N<&mut <$T as ::std::ops::Deref>::Target>
    where
        $T: ::std::ops::DerefMut,
    {
        match self.as_mut() {
            $S(x) => $S(x.deref_mut()),
            _ => $E,
        }
    }
";

/// The methods that change the carried type: emitted for a generic enum only.
pub open spec fn mapping_methods(c: ContainerModel) -> Seq<char> {
    documented(MAP@, DOC_MAP@, c) + documented(MAP_OR@, DOC_MAP_OR@, c) + documented(
        MAP_OR_ELSE@,
        DOC_MAP_OR_ELSE@,
        c,
    )
}

/// The conversions to a `Result`: emitted for every enum.
pub open spec fn result_methods(c: ContainerModel) -> Seq<char> {
    documented(OK_OR@, DOC_OK_OR@, c) + documented(OK_OR_ELSE@, DOC_OK_OR_ELSE@, c)
}

/// The projections through a dereference: emitted for a generic enum only.
pub open spec fn deref_methods(c: ContainerModel) -> Seq<char> {
    documented(AS_DEREF@, DOC_AS_DEREF@, c) + documented(AS_DEREF_MUT@, DOC_AS_DEREF_MUT@, c)
}

/// What `add_section` appends for an enum.
pub open spec fn section(c: ContainerModel) -> Seq<char> {
    generic_only(c, mapping_methods(c)) + result_methods(c) + generic_only(c, deref_methods(c))
}

/// Appends the methods that transform the contained value.
pub fn add_section(container: &DataContainer, impl_block: &mut String)
    ensures
        final(impl_block)@ == old(impl_block)@ + section(container@),
{
    let ghost c = container@;
    let ghost start = impl_block@;
    if container.is_generic {
        emit_documented(impl_block, MAP, DOC_MAP, container);
        emit_documented(impl_block, MAP_OR, DOC_MAP_OR, container);
        emit_documented(impl_block, MAP_OR_ELSE, DOC_MAP_OR_ELSE, container);
    }
    assert(impl_block@ =~= start + generic_only(c, mapping_methods(c)));
    emit_documented(impl_block, OK_OR, DOC_OK_OR, container);
    emit_documented(impl_block, OK_OR_ELSE, DOC_OK_OR_ELSE, container);
    assert(impl_block@ =~= start + generic_only(c, mapping_methods(c)) + result_methods(c));
    if container.is_generic {
        emit_documented(impl_block, AS_DEREF, DOC_AS_DEREF, container);
        emit_documented(impl_block, AS_DEREF_MUT, DOC_AS_DEREF_MUT, container);
    }
    assert(impl_block@ =~= start + section(c));
}

impl<T> Optional<T> {
    /// Whether `r` is what `map` may return for `self` and `f`.
    pub open spec fn mapped<U, F: FnOnce(T) -> U>(self, f: F, r: Optional<U>) -> bool {
        match self {
            Optional::Something(x) => r matches Optional::Something(y) && f.ensures((x,), y),
            Optional::Nothing => r is Nothing,
        }
    }

    /// Applies `f` to the contained value, if there is one.
    pub fn map<U, F: FnOnce(T) -> U>(self, f: F) -> (r: Optional<U>)
        requires
            self matches Optional::Something(x) ==> f.requires((x,)),
        ensures
            self.mapped(f, r),
    {
        match self {
            Optional::Something(x) => Optional::Something(f(x)),
            Optional::Nothing => Optional::Nothing,
        }
    }

    /// Applies `f` to the contained value, or returns `default` if there is none.
    pub fn map_or<U, F: FnOnce(T) -> U>(self, default: U, f: F) -> (r: U)
        requires
            self matches Optional::Something(x) ==> f.requires((x,)),
        ensures
            match self {
                Optional::Something(x) => f.ensures((x,), r),
                Optional::Nothing => r == default,
            },
    {
        match self {
            Optional::Something(x) => f(x),
            Optional::Nothing => default,
        }
    }

    /// Applies `f` to the contained value, or calls `default` if there is none.
    pub fn map_or_else<U, D: FnOnce() -> U, F: FnOnce(T) -> U>(self, default: D, f: F) -> (r: U)
        requires
            self matches Optional::Something(x) ==> f.requires((x,)),
            self is Nothing ==> default.requires(()),
        ensures
            match self {
                Optional::Something(x) => f.ensures((x,), r),
                Optional::Nothing => default.ensures((), r),
            },
    {
        match self {
            Optional::Something(x) => f(x),
            Optional::Nothing => default(),
        }
    }

    /// The result that `ok_or` gives.
    pub open spec fn ok_or_value<E>(self, err: E) -> Result<T, E> {
        match self {
            Optional::Something(x) => Ok(x),
            Optional::Nothing => Err(err),
        }
    }

    /// `Ok` of the contained value, or `Err(err)` if there is none.
    pub fn ok_or<E>(self, err: E) -> (r: Result<T, E>)
        ensures
            r == self.ok_or_value(err),
    {
        match self {
            Optional::Something(x) => Ok(x),
            Optional::Nothing => Err(err),
        }
    }

    /// `Ok` of the contained value, or `Err` of what `err` computes if there is none.
    pub fn ok_or_else<E, F: FnOnce() -> E>(self, err: F) -> (r: Result<T, E>)
        requires
            self is Nothing ==> err.requires(()),
        ensures
            match self {
                Optional::Something(x) => r == Ok::<T, E>(x),
                Optional::Nothing => r matches Err(e) && err.ensures((), e),
            },
    {
        match self {
            Optional::Something(x) => Ok(x),
            Optional::Nothing => Err(err()),
        }
    }

    /// A reference to what the contained value dereferences to.
    pub fn as_deref(&self) -> (r: Optional<&T::Target>) where T: core::ops::Deref
        ensures
            match *self {
                Optional::Something(x) => r matches Optional::Something(y) && call_ensures(
                    <T as core::ops::Deref>::deref,
                    (&x,),
                    y,
                ),
                Optional::Nothing => r is Nothing,
            },
    {
        match self {
            Optional::Something(x) => Optional::Something(x.deref()),
            Optional::Nothing => Optional::Nothing,
        }
    }
}

} // verus!
