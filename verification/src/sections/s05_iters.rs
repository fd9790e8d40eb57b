//! Iterator constructors.

use vstd::prelude::*;
use crate::container::{ContainerModel, DataContainer};
use crate::template::{documented, emit_documented};

verus! {

pub const DOC_ITER: &'static str =
    "Returns an iterator over the possibly contained value. Equivalent to `Option::iter`.";

pub const ITER: &'static str = "
    #[doc = $0]
    $F iter(&self) -> ::std::option::IntoIter<&$T> {
        self.as_option_ref().into_iter()
    }
";

pub const DOC_ITER_MUT: &'static str =
    "Returns a mutable iterator over the possibly contained value. Equivalent to `Option::iter_mut`.";

pub const ITER_MUT: &'static str = "
    #[doc = $0]
    $F iter_mut(&mut self) -> ::std::option::IntoIter<&mut $T> {
        self.as_option_mut().into_iter()
    }
";

/// What `add_section` appends for an enum: `iter` and `iter_mut`, for every
/// enum. Each call of a generated method makes a new iterator over at most
/// one item.
pub open spec fn section(c: ContainerModel) -> Seq<char> {
    documented(ITER@, DOC_ITER@, c) + documented(ITER_MUT@, DOC_ITER_MUT@, c)
}

/// Appends the iterator constructors.
pub fn add_section(container: &DataContainer, impl_block: &mut String)
    ensures
        final(impl_block)@ == old(impl_block)@ + section(container@),
{
    let ghost start = impl_block@;
    emit_documented(impl_block, ITER, DOC_ITER, container);
    emit_documented(impl_block, ITER_MUT, DOC_ITER_MUT, container);
    assert(impl_block@ =~= start + section(container@));
}

} // verus!
