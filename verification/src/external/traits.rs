//! Implementations of the standard traits: the conversions, the default
//! value, iteration and, on request, the `?` operator.

use vstd::prelude::*;
use vstd::std_specs::convert::FromSpecImpl;
use crate::container::{ContainerModel, DataContainer};
use crate::optional::Optional;
use crate::template::{documented, emit_documented, emit_plain, plain};

verus! {

pub const DOC_FROM_VALUE: &'static str = "Moves the value into a `$s`.";

pub const FROM_VALUE: &'static str = "
#[automatically_derived]
$I ::std::convert::From<$T> for $Q {
    #[doc = $0]
    fn from(x: $T) -> Self {
        $S(x)
    }
}
";

pub const FROM_OPTION: &'static str = "
#[automatically_derived]
$I ::std::convert::From<$O<$T>> for $Q {
    fn from(src: $O<$T>) -> Self {
        match src {
            $O::Some(x) => $S(x),
            _ => $E,
        }
    }
}
";

pub const INTO_OPTION: &'static str = "
#[automatically_derived]
$I ::std::convert::From<$Q> for $O<$T> {
    fn from(src: $Q) -> Self {
        match src {
            $S(x) => $O::Some(x),
            _ => $O::None,
        }
    }
}
";

pub const DOC_DEFAULT: &'static str = "Returns a `$e` value. Equivalent to `Option::default`.";

pub const DEFAULT: &'static str = "
#[automatically_derived]
$I ::std::default::Default for $Q {
    #[doc = $0]
    fn default() -> Self {
        $E
    }
}
";

pub const DOC_INTO_ITER: &'static str =
    "Returns an iterator over the possibly contained value. Equivalent to `Option::into_iter`.";

pub const INTO_ITER: &'static str = "
#[automatically_derived]
$I ::std::iter::IntoIterator for $Q {
    type Item = $T;
    type IntoIter = ::std::option::IntoIter<$T>;

    #[doc = $0]
    fn into_iter(self) -> Self::IntoIter {
        $O::<$T>::from(self).into_iter()
    }
}
";

pub const TRY: &'static str = "
#[automatically_derived]
$I ::std::ops::Try for $Q {
    type Output = $T;
    type Residual = <$O<$T> as ::std::ops::Try>::Residual;

    #[inline]
    fn from_output(output: Self::Output) -> Self {
        $S(output)
    }

    #[inline]
    fn branch(self) -> ::std::ops::ControlFlow<Self::Residual, Self::Output> {
        match self {
            $S(x) => ::std::ops::ControlFlow::Continue(x),
            _ => ::std::ops::ControlFlow::Break($O::None),
        }
    }
}

#[automatically_derived]
$I ::std::ops::FromResidual for $Q {
    #[inline]
    fn from_residual(_residual: <Self as ::std::ops::Try>::Residual) -> Self {
        $E
    }
}
";

/// The implementations that every enum gets, in the order emitted.
pub open spec fn standard_traits(c: ContainerModel) -> Seq<char> {
    documented(FROM_VALUE@, DOC_FROM_VALUE@, c) + plain(FROM_OPTION@, c) + plain(INTO_OPTION@, c)
        + documented(DEFAULT@, DOC_DEFAULT@, c) + documented(INTO_ITER@, DOC_INTO_ITER@, c)
}

/// What `add_external` appends for an enum: the standard traits, followed by
/// the implementation of the `?` operator if and only if `try_op` is set.
pub open spec fn external_traits(c: ContainerModel, try_op: bool) -> Seq<char> {
    if try_op {
        standard_traits(c) + plain(TRY@, c)
    } else {
        standard_traits(c)
    }
}

/// Appends the implementations of the standard traits. The `?` operator rests
/// on an unstable part of the language, so its implementation is appended
/// only where `try_op` asks for it.
pub fn add_external(container: &DataContainer, additional_impls: &mut String, try_op: bool)
    ensures
        final(additional_impls)@ == old(additional_impls)@ + external_traits(container@, try_op),
{
    let ghost c = container@;
    emit_documented(additional_impls, FROM_VALUE, DOC_FROM_VALUE, container);
    emit_plain(additional_impls, FROM_OPTION, container);
    emit_plain(additional_impls, INTO_OPTION, container);
    emit_documented(additional_impls, DEFAULT, DOC_DEFAULT, container);
    emit_documented(additional_impls, INTO_ITER, DOC_INTO_ITER, container);
    assert(additional_impls@ =~= old(additional_impls)@ + standard_traits(c));
    if try_op {
        emit_plain(additional_impls, TRY, container);
        assert(additional_impls@ =~= old(additional_impls)@ + (standard_traits(c) + plain(
            TRY@,
            c,
        )));
    }
}

impl<T> From<T> for Optional<T> {
    /// Moves a value into a `Something`.
    fn from(x: T) -> (r: Self) {
        Optional::Something(x)
    }
}

impl<T> FromSpecImpl<T> for Optional<T> {
    open spec fn obeys_from_spec() -> bool {
        true
    }

    open spec fn from_spec(x: T) -> Self {
        Optional::Something(x)
    }
}

impl<T> From<Option<T>> for Optional<T> {
    /// `Some` becomes `Something`, `None` becomes `Nothing`.
    fn from(src: Option<T>) -> (r: Self) {
        match src {
            Some(x) => Optional::Something(x),
            None => Optional::Nothing,
        }
    }
}

impl<T> FromSpecImpl<Option<T>> for Optional<T> {
    open spec fn obeys_from_spec() -> bool {
        true
    }

    open spec fn from_spec(src: Option<T>) -> Self {
        match src {
            Some(x) => Optional::Something(x),
            None => Optional::Nothing,
        }
    }
}

impl<T> From<Optional<T>> for Option<T> {
    /// `Something` becomes `Some`, `Nothing` becomes `None`.
    fn from(src: Optional<T>) -> (r: Self) {
        match src {
            Optional::Something(x) => Some(x),
            Optional::Nothing => None,
        }
    }
}

impl<T> FromSpecImpl<Optional<T>> for Option<T> {
    open spec fn obeys_from_spec() -> bool {
        true
    }

    open spec fn from_spec(src: Optional<T>) -> Self {
        match src {
            Optional::Something(x) => Some(x),
            Optional::Nothing => None,
        }
    }
}

impl<T> Default for Optional<T> {
    /// The default value is `Nothing`, whatever the carried type is.
    fn default() -> (r: Self)
        ensures
            r is Nothing,
    {
        Optional::Nothing
    }
}

} // verus!
