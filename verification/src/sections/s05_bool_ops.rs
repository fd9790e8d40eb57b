//! Boolean operations on the values, eager and lazy.

use vstd::prelude::*;
use crate::container::{ContainerModel, DataContainer};
use crate::optional::Optional;
use crate::template::{documented, emit_documented};

verus! {

pub const DOC_AND: &'static str =
    "Returns `$e` if the `$N` is a `$e`, otherwise returns `optb`. Equivalent to `Option::and`.";

pub const AND_GENERIC: &'static str = "
    #[doc = $0]
    $F and<U>(self, optb: $N<U>) -> $N<U> {
        match self {
            $S(_) => optb,
            _ => $E,
        }
    }
";

pub const AND_SPECIFIC: &'static str = "
    #[doc = $0]
    $F and(self, optb: Self) -> Self {
        match self {
            $S(_) => optb,
            _ => $E,
        }
    }
";

pub const DOC_AND_THEN: &'static str =
    "Returns `$e` if the `$N` is a `$e`, otherwise calls `f` with the contained value and returns the result. Equivalent to `Option::and_then`.";

pub const AND_THEN_GENERIC: &'static str = "
    #[doc = $0]
    $F and_then<U, F>(self, f: F) -> $N<U>
    where
        F: FnOnce($T) -> $N<U>,
    {
        match self {
            $S(x) => f(x),
            _ => $E,
        }
    }
";

pub const AND_THEN_SPECIFIC: &'static str = "
    #[doc = $0]
    $F and_then<F>(self, f: F) -> Self
    where
        F: FnOnce($T) -> Self,
    {
        match self {
            $S(x) => f(x),
            _ => $E,
        }
    }
";

pub const DOC_FILTER: &'static str =
    "Returns a `$s` if the `$N` is a `$s` and the contained value satisfies the predicate `pred`, otherwise returns `$e`. Equivalent to `Option::filter`.";

pub const FILTER: &'static str = "
    #[doc = $0]
    $F filter<P>(self, pred: P) -> Self
    where
        P: FnOnce(&$T) -> bool,
    {
        match self {
            $S(x) if pred(&x) => $S(x),
            _ => $E,
        }
    }
";

pub const DOC_OR: &'static str =
    "Returns the `$N` if it is a `$s`, otherwise returns `optb`. Equivalent to `Option::or`.";

pub const OR: &'static str = "
    #[doc = $0]
    $F or(self, optb: Self) -> Self {
        match self {
            $S(x) => $S(x),
            _ => optb,
        }
    }
";

pub const DOC_OR_ELSE: &'static str =
    "Returns the `$N` if it is a `$s`, otherwise calls `f` and returns the result. Equivalent to `Option::or_else`.";

pub const OR_ELSE: &'static str = "
    #[doc = $0]
    $F or_else<F>(self, f: F) -> Self
    where
        F: FnOnce() -> Self,
    {
        match self {
            $S(x) => $S(x),
            _ => f(),
        }
    }
";

pub const DOC_XOR: &'static str =
    "Returns `$s` if exactly one of `self` or `optb` is a `$s`, otherwise returns `$e`. Equivalent to `Option::xor`.";

pub const XOR: &'static str = "
    #[doc = $0]
    $F xor(self, optb: Self) -> Self {
        match (self, optb) {
            ($S(x), $E) | ($E, $S(x)) => $S(x),
            _ => $E,
        }
    }
";

/// `and` and `and_then`: for a generic enum in the form that may change the
/// carried type, otherwise in the form that keeps the enum's own type.
pub open spec fn and_methods(c: ContainerModel) -> Seq<char> {
    if c.is_generic {
        documented(AND_GENERIC@, DOC_AND@, c) + documented(AND_THEN_GENERIC@, DOC_AND_THEN@, c)
    } else {
        documented(AND_SPECIFIC@, DOC_AND@, c) + documented(AND_THEN_SPECIFIC@, DOC_AND_THEN@, c)
    }
}

/// What `add_section` appends for an enum.
pub open spec fn section(c: ContainerModel) -> Seq<char> {
    and_methods(c) + documented(FILTER@, DOC_FILTER@, c) + documented(OR@, DOC_OR@, c)
        + documented(OR_ELSE@, DOC_OR_ELSE@, c) + documented(XOR@, DOC_XOR@, c)
}

/// Appends the boolean operations.
pub fn add_section(container: &DataContainer, impl_block: &mut String)
    ensures
        final(impl_block)@ == old(impl_block)@ + section(container@),
{
    let ghost c = container@;
    let ghost start = impl_block@;
    if container.is_generic {
        emit_documented(impl_block, AND_GENERIC, DOC_AND, container);
        emit_documented(impl_block, AND_THEN_GENERIC, DOC_AND_THEN, container);
    } else {
        emit_documented(impl_block, AND_SPECIFIC, DOC_AND, container);
        emit_documented(impl_block, AND_THEN_SPECIFIC, DOC_AND_THEN, container);
    }
    assert(impl_block@ =~= start + and_methods(c));
    emit_documented(impl_block, FILTER, DOC_FILTER, container);
    emit_documented(impl_block, OR, DOC_OR, container);
    emit_documented(impl_block, OR_ELSE, DOC_OR_ELSE, container);
    emit_documented(impl_block, XOR, DOC_XOR, container);
    assert(impl_block@ =~= start + section(c));
}

impl<T> Optional<T> {
    /// The value that `and` gives.
    pub open spec fn and_value<U>(self, optb: Optional<U>) -> Optional<U> {
        match self {
            Optional::Something(_) => optb,
            Optional::Nothing => Optional::Nothing,
        }
    }

    /// `optb` if `self` holds a value, else `Nothing`.
    pub fn and<U>(self, optb: Optional<U>) -> (r: Optional<U>)
        ensures
            r == self.and_value(optb),
    {
        match self {
            Optional::Something(_) => optb,
            Optional::Nothing => Optional::Nothing,
        }
    }

    /// What `f` makes of the contained value, or `Nothing` if there is
    /// none; `f` is not called then.
    pub fn and_then<U, F: FnOnce(T) -> Optional<U>>(self, f: F) -> (r: Optional<U>)
        requires
            self matches Optional::Something(x) ==> f.requires((x,)),
        ensures
            match self {
                Optional::Something(x) => f.ensures((x,), r),
                Optional::Nothing => r is Nothing,
            },
    {
        match self {
            Optional::Something(x) => f(x),
            Optional::Nothing => Optional::Nothing,
        }
    }

    /// `self` if it holds a value of which `pred` answers `true`, else `Nothing`.
    pub fn filter<P: FnOnce(&T) -> bool>(self, pred: P) -> (r: Self)
        requires
            self matches Optional::Something(x) ==> pred.requires((&x,)),
        ensures
            match self {
                Optional::Something(x) => if r is Nothing {
                    pred.ensures((&x,), false)
                } else {
                    r == self && pred.ensures((&x,), true)
                },
                Optional::Nothing => r is Nothing,
            },
    {
        match self {
            Optional::Something(x) => {
                if pred(&x) {
                    Optional::Something(x)
                } else {
                    Optional::Nothing
                }
            },
            Optional::Nothing => Optional::Nothing,
        }
    }

    /// The value that `or` gives.
    pub open spec fn or_value(self, optb: Self) -> Self {
        match self {
            Optional::Something(_) => self,
            Optional::Nothing => optb,
        }
    }

    /// `self` if it holds a value, else `optb`.
    pub fn or(self, optb: Self) -> (r: Self)
        ensures
            r == self.or_value(optb),
    {
        match self {
            Optional::Something(x) => Optional::Something(x),
            Optional::Nothing => optb,
        }
    }

    /// `self` if it holds a value, else what `f` computes; `f` is called
    /// only in the second case.
    pub fn or_else<F: FnOnce() -> Self>(self, f: F) -> (r: Self)
        requires
            self is Nothing ==> f.requires(()),
        ensures
            match self {
                Optional::Something(_) => r == self,
                Optional::Nothing => f.ensures((), r),
            },
    {
        match self {
            Optional::Something(x) => Optional::Something(x),
            Optional::Nothing => f(),
        }
    }

    /// The value that `xor` gives: the one of the two that holds a value, if
    /// exactly one does; `Nothing` if none or both do.
    pub open spec fn xor_value(self, optb: Self) -> Self {
        match (self, optb) {
            (Optional::Something(_), Optional::Nothing) => self,
            (Optional::Nothing, Optional::Something(_)) => optb,
            _ => Optional::Nothing,
        }
    }

    /// The one of `self` and `optb` that holds a value, if exactly one does.
    pub fn xor(self, optb: Self) -> (r: Self)
        ensures
            r == self.xor_value(optb),
    {
        match (self, optb) {
            (Optional::Something(x), Optional::Nothing) => Optional::Something(x),
            (Optional::Nothing, Optional::Something(y)) => Optional::Something(y),
            _ => Optional::Nothing,
        }
    }
}

} // verus!
