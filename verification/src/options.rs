//! The persistent vector that holds the options of a group.
//!
//! The vector comes from the `im` crate and is opaque to the proofs. What it
//! holds is named by [`vector_items`]; the functions below are the only ones
//! that touch it, and each states what the crate's method does to the items.
//! Their contracts are taken on trust from the crate's source.
use vstd::prelude::*;

verus! {

/// `im::Vector`, the persistent vector of the `im` crate, declared as a type
/// of which nothing is known but what the functions below state.
#[verifier::external_type_specification]
#[verifier::external_body]
#[verifier::reject_recursive_types(A)]
pub struct ExVector<A>(im::Vector<A>);

/// The items that an `im::Vector` holds, front to back. The name stands for
/// the contents of the vector; the wrappers below say how each method of the
/// crate reads or changes them.
pub uninterp spec fn vector_items(v: im::Vector<u64>) -> Seq<u64>;

/// `im::Vector::new`: a vector without items.
#[verifier::external_body]
pub(crate) fn vector_new() -> (v: im::Vector<u64>)
    ensures
        vector_items(v) == Seq::<u64>::empty(),
{
    im::Vector::new()
}

/// `im::Vector::push_back`: the items as they were, followed by `item`.
#[verifier::external_body]
pub(crate) fn vector_push_back(v: &mut im::Vector<u64>, item: u64)
    ensures
        vector_items(*final(v)) == vector_items(*old(v)).push(item),
{
    v.push_back(item)
}

/// `im::Vector::len`: the number of items.
#[verifier::external_body]
pub(crate) fn vector_len(v: &im::Vector<u64>) -> (n: usize)
    ensures
        n == vector_items(*v).len(),
{
    v.len()
}

/// `im::Vector::get`: the item at `index`, or `None` where `index` is not
/// below the number of items.
#[verifier::external_body]
pub(crate) fn vector_get(v: &im::Vector<u64>, index: usize) -> (item: Option<u64>)
    ensures
        item == if index < vector_items(*v).len() {
            Some(vector_items(*v)[index as int])
        } else {
            None
        },
{
    v.get(index).copied()
}

} // verus!
