//! Methods that `Option` has no counterpart for.

use vstd::prelude::*;
use crate::container::{ContainerModel, DataContainer};
use crate::optional::Optional;
use crate::template::{documented, emit_documented};

verus! {

pub const DOC_AS_OPTION_REF: &'static str = "Converts from `&$q` to `Option<&$t>`.";

pub const AS_OPTION_REF: &'static str = "
    #[doc = $0]
    $F as_option_ref(&self) -> $O<&$T> {
        match *self {
            $S(ref x) => $O::Some(x),
            _ => $O::None,
        }
    }
";

pub const DOC_AS_OPTION_MUT: &'static str = "Converts from `&mut $q` to `Option<&mut $t>`.";

pub const AS_OPTION_MUT: &'static str = "
    #[doc = $0]
    $F as_option_mut(&mut self) -> $O<&mut $T> {
        match *self {
            $S(ref mut x) => $O::Some(x),
            _ => $O::None,
        }
    }
";

/// What `add_section` appends for an enum: the two conversions, for every enum.
pub open spec fn section(c: ContainerModel) -> Seq<char> {
    documented(AS_OPTION_REF@, DOC_AS_OPTION_REF@, c) + documented(
        AS_OPTION_MUT@,
        DOC_AS_OPTION_MUT@,
        c,
    )
}

/// Appends the conversions to an `Option` of a reference.
pub fn add_section(container: &DataContainer, impl_block: &mut String)
    ensures
        final(impl_block)@ == old(impl_block)@ + section(container@),
{
    let ghost start = impl_block@;
    emit_documented(impl_block, AS_OPTION_REF, DOC_AS_OPTION_REF, container);
    emit_documented(impl_block, AS_OPTION_MUT, DOC_AS_OPTION_MUT, container);
    assert(impl_block@ =~= start + section(container@));
}

impl<T> Optional<T> {
    /// The `Option` of a reference to what the value holds.
    pub open spec fn option_of_ref(&self) -> Option<&T> {
        match self {
            Optional::Something(x) => Some(x),
            Optional::Nothing => None,
        }
    }

    /// From a reference to the value, an `Option` of a reference.
    pub fn as_option_ref(&self) -> (r: Option<&T>)
        ensures
            r == self.option_of_ref(),
    {
        match self {
            Optional::Something(x) => Some(x),
            Optional::Nothing => None,
        }
    }

    /// From a mutable reference to the value, an `Option` of a mutable
    /// reference: what is written through it is written to `self`.
    pub fn as_option_mut(&mut self) -> (r: Option<&mut T>)
        ensures
            match *old(self) {
                Optional::Something(x) => {
                    &&& r matches Some(y)
                    &&& *y == x
                    &&& *final(self) == Optional::Something(*final(y))
                },
                Optional::Nothing => r is None && *final(self) is Nothing,
            },
    {
        match self {
            Optional::Something(x) => Some(x),
            Optional::Nothing => None,
        }
    }
}

} // verus!
