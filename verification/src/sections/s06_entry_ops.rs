//! Entry-like operations to insert a value and return a reference.

use vstd::prelude::*;
use crate::container::{ContainerModel, DataContainer};
use crate::optional::Optional;
use crate::template::{documented, emit_documented};

verus! {

pub const DOC_INSERT: &'static str =
    "Inserts a value into the `$N`, then returns a mutable reference to it. Equivalent to `Option::insert`.";

pub const INSERT: &'static str = "
    #[doc = $0]
    $F insert(&mut self, x: $T) -> &mut $T {
        *self = $S(x);
        match self {
            $S(ref mut x) => x,

            // SAFETY: a value was just inserted.
            _ => unsafe { ::std::hint::unreachable_unchecked() },
        }
    }
";

pub const DOC_GET_OR_INSERT: &'static str =
    "Returns a mutable reference to the contained value, inserting the provided value if empty. Equivalent to `Option::get_or_insert`.";

pub const GET_OR_INSERT: &'static str = "
    #[doc = $0]
    $F get_or_insert(&mut self, value: $T) -> &mut $T {
        match self {
            $S(ref mut x) => x,
            _ => self.insert(value),
        }
    }
";

pub const DOC_GET_OR_INSERT_DEFAULT: &'static str =
    "Returns a mutable reference to the contained value, inserting the default value if empty. Equivalent to `Option::get_or_insert_default`.";

pub const GET_OR_INSERT_DEFAULT: &'static str = "
    #[doc = $0]
    $F get_or_insert_default(&mut self) -> &mut $T
    where
        $T: ::std::default::Default,
    {
        self.get_or_insert_with(::std::default::Default::default)
    }
";

pub const DOC_GET_OR_INSERT_WITH: &'static str =
    "Returns a mutable reference to the contained value, inserting the result of the provided function if empty. Equivalent to `Option::get_or_insert_with`.";

pub const GET_OR_INSERT_WITH: &'static str = "
    #[doc = $0]
    $F get_or_insert_with<F>(&mut self, f: F) -> &mut $T
    where
        F: FnOnce() -> $T,
    {
        match self {
            $S(ref mut x) => x,
            _ => self.insert(f()),
        }
    }
";

/// What `add_section` appends for an enum: the same four methods for every enum.
pub open spec fn section(c: ContainerModel) -> Seq<char> {
    documented(INSERT@, DOC_INSERT@, c) + documented(GET_OR_INSERT@, DOC_GET_OR_INSERT@, c)
        + documented(GET_OR_INSERT_DEFAULT@, DOC_GET_OR_INSERT_DEFAULT@, c) + documented(
        GET_OR_INSERT_WITH@,
        DOC_GET_OR_INSERT_WITH@,
        c,
    )
}

/// Appends the entry-like operations.
pub fn add_section(container: &DataContainer, impl_block: &mut String)
    ensures
        final(impl_block)@ == old(impl_block)@ + section(container@),
{
    let ghost start = impl_block@;
    emit_documented(impl_block, INSERT, DOC_INSERT, container);
    emit_documented(impl_block, GET_OR_INSERT, DOC_GET_OR_INSERT, container);
    emit_documented(impl_block, GET_OR_INSERT_DEFAULT, DOC_GET_OR_INSERT_DEFAULT, container);
    emit_documented(impl_block, GET_OR_INSERT_WITH, DOC_GET_OR_INSERT_WITH, container);
    assert(impl_block@ =~= start + section(container@));
}

impl<T> Optional<T> {
    /// Stores `value`, whatever was there, and returns a mutable reference
    /// to the stored value.
    pub fn insert(&mut self, value: T) -> (r: &mut T)
        ensures
            *r == value,
            *final(self) == Optional::Something(*final(r)),
    {
        *self = Optional::Something(value);
        match self {
            Optional::Something(x) => x,
            Optional::Nothing => vstd::pervasive::unreached(),
        }
    }

    /// A mutable reference to the contained value; `value` is stored first
    /// if there is none.
    pub fn get_or_insert(&mut self, value: T) -> (r: &mut T)
        ensures
            *r == old(self).unwrap_or_value(value),
            *final(self) == Optional::Something(*final(r)),
    {
        if let Optional::Nothing = self {
            *self = Optional::Something(value);
        }
        match self {
            Optional::Something(x) => x,
            Optional::Nothing => vstd::pervasive::unreached(),
        }
    }

    /// A mutable reference to the contained value; the carried type's
    /// default is stored first if there is none.
    pub fn get_or_insert_default(&mut self) -> (r: &mut T) where T: Default
        ensures
            old(self).unwrapped_or_default(*r),
            *final(self) == Optional::Something(*final(r)),
    {
        if let Optional::Nothing = self {
            *self = Optional::Something(T::default());
        }
        match self {
            Optional::Something(x) => x,
            Optional::Nothing => vstd::pervasive::unreached(),
        }
    }

    /// A mutable reference to the contained value; what `f` computes is
    /// stored first if there is none, and `f` is called only then.
    pub fn get_or_insert_with<F: FnOnce() -> T>(&mut self, f: F) -> (r: &mut T)
        requires
            *old(self) is Nothing ==> f.requires(()),
        ensures
            match *old(self) {
                Optional::Something(x) => *r == x,
                Optional::Nothing => f.ensures((), *r),
            },
            *final(self) == Optional::Something(*final(r)),
    {
        if let Optional::Nothing = self {
            *self = Optional::Something(f());
        }
        match self {
            Optional::Something(x) => x,
            Optional::Nothing => vstd::pervasive::unreached(),
        }
    }
}

} // verus!
