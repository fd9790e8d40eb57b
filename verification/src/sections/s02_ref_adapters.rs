//! Adapters for working with references.

use vstd::prelude::*;
use crate::container::{ContainerModel, DataContainer};
use crate::optional::Optional;
use crate::template::{
    documented, emit_documented, emit_method, generic_only, method, where_for, where_text,
};
use crate::text::texts;

verus! {

pub const DOC_AS_REF: &'static str =
    "Converts from `&$N<$t>` to `$N<&$t>`. Equivalent to `Option::as_ref`.";

pub const AS_REF: &'static str = "
    #[doc = $0]
    $C as_ref<'a>(&'a self) -> $N<&'a $T> $1 {
        match *self {
            $S(ref x) => $S(x),
            _ => $E,
        }
    }
";

pub const DOC_AS_MUT: &'static str =
    "Converts from `&mut $N<$t>` to `$N<&mut $t>`. Equivalent to `Option::as_mut`.";

pub const AS_MUT: &'static str = "
    #[doc = $0]
    $F as_mut<'a>(&'a mut self) -> $N<&'a mut $T> $1 {
        match *self {
            $S(ref mut x) => $S(x),
            _ => $E,
        }
    }
";

pub const DOC_AS_PIN_REF: &'static str =
    "Converts from `Pin<&$N<$t>>` to `$N<Pin<&$t>>`. Equivalent to `Option::as_pin_ref`.";

pub const AS_PIN_REF: &'static str = "
    #[doc = $0]
    $F as_pin_ref<'a>(self: ::std::pin::Pin<&'a Self>) -> $N<::std::pin::Pin<&'a $T>> $1 {
        match ::std::pin::Pin::get_ref(self) {
            // SAFETY: `x` is guaranteed to be pinned because it comes from `self`
            // which is pinned.
            $S(ref x) => unsafe { $S(::std::pin::Pin::new_unchecked(x)) },
            _ => $E,
        }
    }
";

pub const DOC_AS_PIN_MUT: &'static str =
    "Converts from `Pin<&mut $N<$t>>` to `$N<Pin<&mut $t>>`. Equivalent to `Option::as_pin_mut`.";

pub const AS_PIN_MUT: &'static str = "
    #[doc = $0]
    $F as_pin_mut<'a>(self: ::std::pin::Pin<&'a mut Self>) -> $N<::std::pin::Pin<&'a mut $T>> $1 {
        // SAFETY: `get_unchecked_mut` is never used to move the value inside `self`.
        // `x` is guaranteed to be pinned because it comes from `self` which is pinned.
        unsafe {
            match ::std::pin::Pin::get_unchecked_mut(self) {
                $S(ref mut x) => $S(::std::pin::Pin::new_unchecked(x)),
                _ => $E,
            }
        }
    }
";

pub const DOC_AS_SLICE: &'static str =
    "Returns a slice of the contained value, if any. Equivalent to `Option::as_slice`.";

pub const AS_SLICE: &'static str = "
    #[doc = $0]
    $F as_slice(&self) -> &[$T] {
        match *self {
            $S(ref x) => ::std::slice::from_ref(x),
            _ => &[],
        }
    }
";

pub const DOC_AS_MUT_SLICE: &'static str =
    "Returns a mutable slice of the contained value, if any. Equivalent to `Option::as_mut_slice`.";

pub const AS_MUT_SLICE: &'static str = "
    #[doc = $0]
    $F as_mut_slice(&mut self) -> &mut [$T] {
        match *self {
            $S(ref mut x) => ::std::slice::from_mut(x),
            _ => &mut [],
        }
    }
";

/// The adapters that put a reference in place of the carried type: emitted
/// for a generic enum only. `as_ref` is the one that can be evaluated at
/// compile time.
pub open spec fn reference_methods(c: ContainerModel) -> Seq<char> {
    method(AS_REF@, DOC_AS_REF@, c, seq![where_for(c, "&'a $T"@)]) + method(
        AS_MUT@,
        DOC_AS_MUT@,
        c,
        seq![where_for(c, "&'a mut $T"@)],
    ) + method(AS_PIN_REF@, DOC_AS_PIN_REF@, c, seq![where_for(c, "::std::pin::Pin<&'a $T>"@)])
        + method(
        AS_PIN_MUT@,
        DOC_AS_PIN_MUT@,
        c,
        seq![where_for(c, "::std::pin::Pin<&'a mut $T>"@)],
    )
}

/// The views as a slice: emitted for every enum.
pub open spec fn slice_methods(c: ContainerModel) -> Seq<char> {
    documented(AS_SLICE@, DOC_AS_SLICE@, c) + documented(AS_MUT_SLICE@, DOC_AS_MUT_SLICE@, c)
}

/// What `add_section` appends for an enum.
pub open spec fn section(c: ContainerModel) -> Seq<char> {
    generic_only(c, reference_methods(c)) + slice_methods(c)
}

/// Appends the adapters for working with references.
pub fn add_section(container: &DataContainer, impl_block: &mut String)
    ensures
        final(impl_block)@ == old(impl_block)@ + section(container@),
{
    let ghost c = container@;
    let ghost start = impl_block@;
    if container.is_generic {
        let extras = vec![where_text(container, "&'a $T")];
        assert(texts(extras@) =~= seq![where_for(c, "&'a $T"@)]);
        emit_method(impl_block, AS_REF, DOC_AS_REF, container, extras);
        let extras = vec![where_text(container, "&'a mut $T")];
        assert(texts(extras@) =~= seq![where_for(c, "&'a mut $T"@)]);
        emit_method(impl_block, AS_MUT, DOC_AS_MUT, container, extras);
        let extras = vec![where_text(container, "::std::pin::Pin<&'a $T>")];
        assert(texts(extras@) =~= seq![where_for(c, "::std::pin::Pin<&'a $T>"@)]);
        emit_method(impl_block, AS_PIN_REF, DOC_AS_PIN_REF, container, extras);
        let extras = vec![where_text(container, "::std::pin::Pin<&'a mut $T>")];
        assert(texts(extras@) =~= seq![where_for(c, "::std::pin::Pin<&'a mut $T>"@)]);
        emit_method(impl_block, AS_PIN_MUT, DOC_AS_PIN_MUT, container, extras);
    }
    assert(impl_block@ =~= start + generic_only(c, reference_methods(c)));
    emit_documented(impl_block, AS_SLICE, DOC_AS_SLICE, container);
    emit_documented(impl_block, AS_MUT_SLICE, DOC_AS_MUT_SLICE, container);
    assert(impl_block@ =~= start + section(c));
}

/// `core::slice::from_ref` gives the slice of exactly the one value.
pub assume_specification<T>[ core::slice::from_ref ](s: &T) -> (r: &[T])
    ensures
        r@ == seq![*s],
;

/// `core::slice::from_mut` gives the mutable slice of exactly the one value:
/// what is written to its one element is written to the value.
pub assume_specification<T>[ core::slice::from_mut ](s: &mut T) -> (r: &mut [T])
    ensures
        r@ == seq![*old(s)],
        final(r)@.len() == 1,
        *final(s) == final(r)@[0],
;

impl<T> Optional<T> {
    /// The same value with a reference in place of what it holds.
    pub open spec fn referenced(&self) -> Optional<&T> {
        match self {
            Optional::Something(x) => Optional::Something(x),
            Optional::Nothing => Optional::Nothing,
        }
    }

    /// From a reference to the value, a value that holds a reference.
    pub fn as_ref(&self) -> (r: Optional<&T>)
        ensures
            r == self.referenced(),
    {
        match self {
            Optional::Something(x) => Optional::Something(x),
            Optional::Nothing => Optional::Nothing,
        }
    }

    /// From a mutable reference to the value, a value that holds a mutable
    /// reference: what is written through it is written to `self`.
    pub fn as_mut(&mut self) -> (r: Optional<&mut T>)
        ensures
            match *old(self) {
                Optional::Something(x) => {
                    &&& r matches Optional::Something(y)
                    &&& *y == x
                    &&& *final(self) == Optional::Something(*final(y))
                },
                Optional::Nothing => r is Nothing && *final(self) is Nothing,
            },
    {
        match self {
            Optional::Something(x) => Optional::Something(x),
            Optional::Nothing => Optional::Nothing,
        }
    }

    /// The elements of the slice that `as_slice` gives: the contained value,
    /// or none.
    pub open spec fn elements(self) -> Seq<T> {
        match self {
            Optional::Something(x) => seq![x],
            Optional::Nothing => Seq::empty(),
        }
    }

    /// A slice of the contained value: one element, or none.
    pub fn as_slice(&self) -> (r: &[T])
        ensures
            r@ == self.elements(),
    {
        match self {
            Optional::Something(x) => core::slice::from_ref(x),
            Optional::Nothing => &[],
        }
    }

    /// A mutable slice of the contained value: one element, or none. What
    /// is written to the element is written to `self`.
    pub fn as_mut_slice(&mut self) -> (r: &mut [T])
        ensures
            r@ == old(self).elements(),
            final(r)@.len() == r@.len(),
            final(self).elements() == final(r)@,
    {
        match self {
            Optional::Something(x) => core::slice::from_mut(x),
            Optional::Nothing => &mut [],
        }
    }
}

} // verus!
