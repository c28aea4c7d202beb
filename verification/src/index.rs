//! Indices over token symbols and account identifiers.

use indexmap::IndexMap;
use vstd::prelude::*;

verus! {

#[verifier::external_type_specification]
#[verifier::external_body]
#[verifier::reject_recursive_types(K)]
#[verifier::reject_recursive_types(V)]
#[verifier::reject_recursive_types(S)]
pub struct ExIndexMap<K, V, S>(IndexMap<K, V, S>);

/// What an index over texts holds.
pub uninterp spec fn text_entries(index: IndexMap<String, usize>) -> Map<Seq<char>, usize>;

/// What an index over numbers holds.
pub uninterp spec fn number_entries(index: IndexMap<u128, u64>) -> Map<u128, u64>;

/// `IndexMap::new` holds nothing.
#[verifier::external_body]
pub(crate) fn new_text_index() -> (r: IndexMap<String, usize>)
    ensures
        text_entries(r) == (Map::<Seq<char>, usize>::empty()),
{
    IndexMap::new()
}

/// `IndexMap::insert` stores a value under a key and returns the value that it replaced.
#[verifier::external_body]
pub(crate) fn insert_text(
    index: &mut IndexMap<String, usize>,
    key: String,
    value: usize,
) -> (r: Option<usize>)
    ensures
        text_entries(*final(index)) == text_entries(*old(index)).insert(key@, value),
        r == text_entries(*old(index)).get(key@),
{
    index.insert(key, value)
}

/// `IndexMap::get` finds the value under a key.
#[verifier::external_body]
pub(crate) fn get_text(index: &IndexMap<String, usize>, key: &str) -> (r: Option<usize>)
    ensures
        r == text_entries(*index).get(key@),
{
    index.get(key).copied()
}

/// `IndexMap::new` holds nothing.
#[verifier::external_body]
pub(crate) fn new_number_index() -> (r: IndexMap<u128, u64>)
    ensures
        number_entries(r) == (Map::<u128, u64>::empty()),
{
    IndexMap::new()
}

/// `IndexMap::insert` stores a value under a key in place of one that was there.
#[verifier::external_body]
pub(crate) fn insert_number(index: &mut IndexMap<u128, u64>, key: u128, value: u64) -> (r: Option<
    u64,
>)
    ensures
        number_entries(*final(index)) == number_entries(*old(index)).insert(key, value),
        r == number_entries(*old(index)).get(key),
{
    index.insert(key, value)
}

/// `IndexMap::get` finds the value under a key.
#[verifier::external_body]
pub(crate) fn get_number(index: &IndexMap<u128, u64>, key: u128) -> (r: Option<u64>)
    ensures
        r == number_entries(*index).get(key),
{
    index.get(&key).copied()
}

} // verus!
