use vstd::prelude::*;
use crate::profile::FixedSupply;

verus! {

#[verifier::external_type_specification]
#[verifier::external_body]
#[verifier::reject_recursive_types(T)]
pub struct ExHeaplessVec<T, const N: usize>(heapless::Vec<T, N>);

/// The profiles a catalog holds, oldest first.
pub uninterp spec fn catalog_seq(v: heapless::Vec<FixedSupply, 8>) -> Seq<FixedSupply>;

/// Relies on heapless::Vec::new: constructs an empty vector.
#[verifier::external_body]
pub(crate) fn catalog_new() -> (r: heapless::Vec<FixedSupply, 8>)
    ensures
        catalog_seq(r) == Seq::<FixedSupply>::empty(),
{
    heapless::Vec::new()
}

/// Relies on heapless::Vec::clear: removes every element.
#[verifier::external_body]
pub(crate) fn catalog_clear(v: &mut heapless::Vec<FixedSupply, 8>)
    ensures
        catalog_seq(*final(v)) == Seq::<FixedSupply>::empty(),
{
    v.clear()
}

/// Relies on heapless::Vec::push: appends while the length is below the
/// capacity 8, otherwise hands the item back and leaves the vector unchanged.
#[verifier::external_body]
pub(crate) fn catalog_push(v: &mut heapless::Vec<FixedSupply, 8>, item: FixedSupply) -> (r: bool)
    ensures
        catalog_seq(*old(v)).len() < 8 ==> r && catalog_seq(*final(v)) == catalog_seq(*old(v)).push(item),
        catalog_seq(*old(v)).len() >= 8 ==> !r && catalog_seq(*final(v)) == catalog_seq(*old(v)),
{
    v.push(item).is_ok()
}

/// Relies on heapless::Vec::as_slice: the number of elements held.
#[verifier::external_body]
pub(crate) fn catalog_count(v: &heapless::Vec<FixedSupply, 8>) -> (r: usize)
    ensures
        r == catalog_seq(*v).len(),
{
    v.as_slice().len()
}

/// Relies on heapless::Vec::as_slice and slice::get: the element at `i` where
/// one is held, `None` past the end.
#[verifier::external_body]
pub(crate) fn catalog_at(v: &heapless::Vec<FixedSupply, 8>, i: usize) -> (r: Option<FixedSupply>)
    ensures
        i < catalog_seq(*v).len() ==> r == Some(catalog_seq(*v)[i as int]),
        i >= catalog_seq(*v).len() ==> r is None,
{
    v.as_slice().get(i).copied()
}

} // verus!
