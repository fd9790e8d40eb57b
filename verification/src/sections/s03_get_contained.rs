//! Getting to contained values.

use vstd::prelude::*;
use crate::container::{ContainerModel, DataContainer};
use crate::optional::Optional;
use crate::template::{
    document, documentation, documented, emit_documented, emit_method, method,
};
use crate::text::texts;

verus! {

pub const DOC_EXPECT: &'static str =
    "Returns the contained `$s` value, consuming `self`. Equivalent to `Option::expect`.

# Panics

Panics if the value is a `$e` with a custom panic message provided by `msg`.";

pub const EXPECT: &'static str = "
    #[doc = $0]
    $F expect(self, msg: &str) -> $T {
        match self {
            $S(x) => x,
            _ => panic!(\"{}\", msg),
        }
    }
";

/// What the generated `unwrap` says when it finds no value.
pub const MSG_UNWRAP: &'static str = "called `$N::unwrap()` on a `$e` value";

pub const DOC_UNWRAP: &'static str =
    "Returns the contained `$s` value, consuming `self`. Equivalent to `Option::unwrap`.

# Panics

Panics if the value is a `$e`.";

pub const UNWRAP: &'static str = "
    #[doc = $0]
    $F unwrap(self) -> $T {
        match self {
            $S(x) => x,
            _ => panic!(\"{}\", $1),
        }
    }
";

pub const DOC_UNWRAP_OR: &'static str =
    "Returns the contained `$s` value or a provided default. Equivalent to `Option::unwrap_or`.";

pub const UNWRAP_OR: &'static str = "
    #[doc = $0]
    $F unwrap_or(self, default: $T) -> $T {
        match self {
            $S(x) => x,
            _ => default,
        }
    }
";

pub const DOC_UNWRAP_OR_ELSE: &'static str =
    "Returns the contained `$s` value or computes it from a closure. Equivalent to `Option::unwrap_or_else`.";

pub const UNWRAP_OR_ELSE: &'static str = "
    #[doc = $0]
    $F unwrap_or_else<F>(self, f: F) -> $T
    where
        F: FnOnce() -> $T,
    {
        match self {
            $S(x) => x,
            _ => f(),
        }
    }
";

pub const DOC_UNWRAP_OR_DEFAULT: &'static str =
    "Returns the contained `$s` value or its default. Equivalent to `Option::unwrap_or_default`.";

pub const UNWRAP_OR_DEFAULT: &'static str = "
    #[doc = $0]
    $F unwrap_or_default(self) -> $T
    where
        $T: ::std::default::Default,
    {
        match self {
            $S(x) => x,
            _ => ::std::default::Default::default(),
        }
    }
";

pub const DOC_UNWRAP_UNCHECKED: &'static str =
    "Returns the contained `$s` value without checking, consuming `self`. Equivalent to `Option::unwrap_unchecked`.

# Safety

The caller must guarantee that the value is a `$s`. Otherwise, undefined behavior occurs.";

pub const UNWRAP_UNCHECKED: &'static str = "
    #[doc = $0]
    pub unsafe fn unwrap_unchecked(self) -> $T {
        match self {
            $S(x) => x,
            // SAFETY: the safety contract must be upheld by the caller.
            _ => unsafe { ::std::hint::unreachable_unchecked() },
        }
    }
";

/// `unwrap`, with the message that it panics with.
pub open spec fn unwrap_method(c: ContainerModel) -> Seq<char> {
    method(UNWRAP@, DOC_UNWRAP@, c, seq![documentation(MSG_UNWRAP@, c)])
}

/// What `add_section` appends for an enum: the same six methods for every enum.
pub open spec fn section(c: ContainerModel) -> Seq<char> {
    documented(EXPECT@, DOC_EXPECT@, c) + unwrap_method(c) + documented(
        UNWRAP_OR@,
        DOC_UNWRAP_OR@,
        c,
    ) + documented(UNWRAP_OR_ELSE@, DOC_UNWRAP_OR_ELSE@, c) + documented(
        UNWRAP_OR_DEFAULT@,
        DOC_UNWRAP_OR_DEFAULT@,
        c,
    ) + documented(UNWRAP_UNCHECKED@, DOC_UNWRAP_UNCHECKED@, c)
}

/// Appends the methods that get to the contained value.
pub fn add_section(container: &DataContainer, impl_block: &mut String)
    ensures
        final(impl_block)@ == old(impl_block)@ + section(container@),
{
    let ghost c = container@;
    let ghost start = impl_block@;
    emit_documented(impl_block, EXPECT, DOC_EXPECT, container);
    let extras = vec![document(MSG_UNWRAP, container)];
    assert(texts(extras@) =~= seq![documentation(MSG_UNWRAP@, c)]);
    emit_method(impl_block, UNWRAP, DOC_UNWRAP, container, extras);
    emit_documented(impl_block, UNWRAP_OR, DOC_UNWRAP_OR, container);
    emit_documented(impl_block, UNWRAP_OR_ELSE, DOC_UNWRAP_OR_ELSE, container);
    emit_documented(impl_block, UNWRAP_OR_DEFAULT, DOC_UNWRAP_OR_DEFAULT, container);
    emit_documented(impl_block, UNWRAP_UNCHECKED, DOC_UNWRAP_UNCHECKED, container);
    assert(impl_block@ =~= start + section(c));
}

impl<T> Optional<T> {
    /// The contained value. There must be one: the generated method panics
    /// with `msg` where there is none.
    pub fn expect(self, msg: &str) -> (r: T)
        requires
            self is Something,
        ensures
            self == Optional::Something(r),
    {
        match self {
            Optional::Something(x) => x,
            Optional::Nothing => vstd::pervasive::unreached(),
        }
    }

    /// The contained value. There must be one: the generated method panics
    /// where there is none.
    pub fn unwrap(self) -> (r: T)
        requires
            self is Something,
        ensures
            self == Optional::Something(r),
    {
        match self {
            Optional::Something(x) => x,
            Optional::Nothing => vstd::pervasive::unreached(),
        }
    }

    /// The value that `unwrap_or` gives.
    pub open spec fn unwrap_or_value(self, default: T) -> T {
        match self {
            Optional::Something(x) => x,
            Optional::Nothing => default,
        }
    }

    /// The contained value, or `default` if there is none.
    pub fn unwrap_or(self, default: T) -> (r: T)
        ensures
            r == self.unwrap_or_value(default),
    {
        match self {
            Optional::Something(x) => x,
            Optional::Nothing => default,
        }
    }

    /// The contained value, or what `f` computes if there is none; `f` is
    /// called only in the second case.
    pub fn unwrap_or_else<F: FnOnce() -> T>(self, f: F) -> (r: T)
        requires
            self is Nothing ==> f.requires(()),
        ensures
            match self {
                Optional::Something(x) => r == x,
                Optional::Nothing => f.ensures((), r),
            },
    {
        match self {
            Optional::Something(x) => x,
            Optional::Nothing => f(),
        }
    }

    /// Whether `r` is what `unwrap_or_default` may return for `self`.
    pub open spec fn unwrapped_or_default(self, r: T) -> bool where T: Default {
        match self {
            Optional::Something(x) => r == x,
            Optional::Nothing => call_ensures(T::default, (), r),
        }
    }

    /// The contained value, or the carried type's default if there is none.
    pub fn unwrap_or_default(self) -> (r: T) where T: Default
        ensures
            self.unwrapped_or_default(r),
    {
        match self {
            Optional::Something(x) => x,
            Optional::Nothing => T::default(),
        }
    }

    /// The contained value, taken without a check: the caller guarantees
    /// that there is one.
    pub fn unwrap_unchecked(self) -> (r: T)
        requires
            self is Something,
        ensures
            self == Optional::Something(r),
    {
        match self {
            Optional::Something(x) => x,
            Optional::Nothing => vstd::pervasive::unreached(),
        }
    }
}

} // verus!
