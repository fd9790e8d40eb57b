//! Querying the contained values.

use vstd::prelude::*;
use crate::container::{ContainerModel, DataContainer};
use crate::optional::Optional;
use crate::template::{documented, emit_documented};

verus! {

pub const DOC_IS_SOME: &'static str =
    "Returns `true` if the `$N` is a `$s` value. Equivalent to `Option::is_some`.";

pub const IS_SOME: &'static str = "
    #[doc = $0]
    $F is_$m(&self) -> bool {
        matches!(*self, $S(_))
    }
";

pub const DOC_IS_SOME_AND: &'static str =
    "Returns `true` if the `$N` is a `$s` and the value inside of it matches a predicate. Equivalent to `Option::is_some_and`.";

pub const IS_SOME_AND: &'static str = "
    #[doc = $0]
    $F is_$m_and(self, f: impl ::std::ops::FnOnce($T) -> bool) -> bool {
        match self {
            $S(x) => f(x),
            _ => false,
        }
    }
";

pub const DOC_IS_NONE: &'static str =
    "Returns `true` if the `$N` is a `$e` value. Equivalent to `Option::is_none`.";

pub const IS_NONE: &'static str = "
    #[doc = $0]
    $F is_$n(&self) -> bool {
        matches!(*self, $E)
    }
";

pub const DOC_IS_NONE_OR: &'static str =
    "Returns `true` if the `$N` is a `$e` or the value inside of it matches a predicate. Equivalent to `Option::is_none_or`.";

pub const IS_NONE_OR: &'static str = "
    #[doc = $0]
    $F is_$n_or(self, f: impl ::std::ops::FnOnce($T) -> bool) -> bool {
        match self {
            $S(x) => f(x),
            _ => true,
        }
    }
";

/// What `add_section` appends for an enum: the same four predicates for
/// every enum, named after the snake-case spellings of its two variants.
pub open spec fn section(c: ContainerModel) -> Seq<char> {
    documented(IS_SOME@, DOC_IS_SOME@, c) + documented(IS_SOME_AND@, DOC_IS_SOME_AND@, c)
        + documented(IS_NONE@, DOC_IS_NONE@, c) + documented(IS_NONE_OR@, DOC_IS_NONE_OR@, c)
}

/// Appends the predicates.
pub fn add_section(container: &DataContainer, impl_block: &mut String)
    ensures
        final(impl_block)@ == old(impl_block)@ + section(container@),
{
    let ghost start = impl_block@;
    emit_documented(impl_block, IS_SOME, DOC_IS_SOME, container);
    emit_documented(impl_block, IS_SOME_AND, DOC_IS_SOME_AND, container);
    emit_documented(impl_block, IS_NONE, DOC_IS_NONE, container);
    emit_documented(impl_block, IS_NONE_OR, DOC_IS_NONE_OR, container);
    assert(impl_block@ =~= start + section(container@));
}

impl<T> Optional<T> {
    /// Whether the value is a `Something`.
    pub open spec fn holds_something(&self) -> bool {
        self is Something
    }

    /// Whether the value is a `Nothing`.
    pub open spec fn holds_nothing(&self) -> bool {
        self is Nothing
    }

    /// `true` if and only if there is a value.
    #[verifier::when_used_as_spec(holds_something)]
    pub fn is_something(&self) -> (r: bool)
        ensures
            r == self.holds_something(),
    {
        match self {
            Optional::Something(_) => true,
            Optional::Nothing => false,
        }
    }

    /// `true` if and only if there is a value and `f` answers `true` of it;
    /// `f` is not called where there is none.
    pub fn is_something_and<F: FnOnce(T) -> bool>(self, f: F) -> (r: bool)
        requires
            self matches Optional::Something(x) ==> f.requires((x,)),
        ensures
            match self {
                Optional::Something(x) => f.ensures((x,), r),
                Optional::Nothing => !r,
            },
    {
        match self {
            Optional::Something(x) => f(x),
            Optional::Nothing => false,
        }
    }

    /// `true` if and only if there is no value.
    #[verifier::when_used_as_spec(holds_nothing)]
    pub fn is_nothing(&self) -> (r: bool)
        ensures
            r == self.holds_nothing(),
    {
        match self {
            Optional::Something(_) => false,
            Optional::Nothing => true,
        }
    }

    /// `true` if there is no value; otherwise what `f` answers of the value.
    pub fn is_nothing_or<F: FnOnce(T) -> bool>(self, f: F) -> (r: bool)
        requires
            self matches Optional::Something(x) ==> f.requires((x,)),
        ensures
            match self {
                Optional::Something(x) => f.ensures((x,), r),
                Optional::Nothing => r,
            },
    {
        match self {
            Optional::Something(x) => f(x),
            Optional::Nothing => true,
        }
    }
}

} // verus!
