//! Trusted view of `near_sdk::collections::UnorderedMap<String, String>`, the
//! persistent mapping that backs each direction of the association store.
//!
//! The map stores its entries in the host's key-value substrate under the
//! storage prefix it was created with; an entry's key is addressed by its
//! serialized bytes, and `String` serialization is injective, so a map value
//! is modelled by the mathematical map from key views to value views. The
//! contracts below assume, as the store guarantees by construction, that each
//! map exclusively owns its prefix range of the substrate.

use vstd::prelude::*;

verus! {

#[verifier::external_type_specification]
#[verifier::external_body]
#[verifier::reject_recursive_types(K)]
#[verifier::reject_recursive_types(V)]
pub struct ExUnorderedMap<K, V>(near_sdk::collections::UnorderedMap<K, V>);

/// A persistent string-to-string mapping in the host's key-value substrate.
pub type StringMap = near_sdk::collections::UnorderedMap<String, String>;

/// The entries a persistent mapping currently holds, as a mathematical map
/// over the views of its keys and values.
pub uninterp spec fn map_contents(m: StringMap) -> Map<Seq<char>, Seq<char>>;

/// The contents of a mapping with no entries.
pub open spec fn no_entries() -> Map<Seq<char>, Seq<char>> {
    Map::empty()
}

/// The storage prefix a persistent mapping was created with, which roots its
/// key range within the shared substrate.
pub uninterp spec fn map_prefix(m: StringMap) -> Seq<u8>;

/// Relies on `UnorderedMap::new`: a map created with the given prefix holds
/// no entries and roots all of its storage keys under that prefix.
#[verifier::external_body]
pub(crate) fn map_new(prefix: Vec<u8>) -> (m: StringMap)
    ensures
        map_contents(m) == no_entries(),
        map_prefix(m) == prefix@,
{
    near_sdk::collections::UnorderedMap::new(prefix)
}

/// Relies on `UnorderedMap::insert`: maps the key to the value, overwriting
/// and returning any value previously stored at that key; no other entry and
/// not the map's prefix changes.
#[verifier::external_body]
pub(crate) fn map_insert(m: &mut StringMap, key: &String, value: &String) -> (prev: Option<String>)
    ensures
        map_contents(*final(m)) == map_contents(*old(m)).insert(key@, value@),
        map_prefix(*final(m)) == map_prefix(*old(m)),
        prev is Some <==> map_contents(*old(m)).contains_key(key@),
        prev is Some ==> (prev->Some_0)@ == map_contents(*old(m))[key@],
{
    m.insert(key, value)
}

/// Relies on `UnorderedMap::get`: returns the value stored at the key, or
/// `None` when the map holds no entry for it.
#[verifier::external_body]
pub(crate) fn map_get(m: &StringMap, key: &String) -> (r: Option<String>)
    ensures
        r is Some <==> map_contents(*m).contains_key(key@),
        r is Some ==> (r->Some_0)@ == map_contents(*m)[key@],
{
    m.get(key)
}

} // verus!
