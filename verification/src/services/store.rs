//! The concurrent map that holds the entries of the cache.
//!
//! The map is `dashmap::DashMap`, keyed by the characters of a string. Every
//! function here is a thin call into it whose contract is taken on trust from
//! the map's documentation. All of them ask for exclusive access to the map
//! when they change it, so that what a contract says of the contents holds
//! until the next change.

use vstd::prelude::*;
use dashmap::DashMap;
use crate::services::cache_entry::{CacheEntry, EntryMeta, EntryView};
use crate::text::views;

verus! {

/// `dashmap::DashMap`, declared so that it can stand in a field. Nothing is
/// known of its inside; what it holds is named by [`stored`].
#[verifier::external_type_specification]
#[verifier::external_body]
#[verifier::reject_recursive_types(K)]
#[verifier::reject_recursive_types(V)]
#[verifier::reject_recursive_types(S)]
pub struct ExDashMap<K, V, S>(DashMap<K, V, S>);

/// The entries that a map holds, by the characters of their keys.
pub uninterp spec fn stored(map: DashMap<String, CacheEntry<String>>) -> Map<
    Seq<char>,
    EntryView<Seq<char>>,
>;

/// `DashMap::new`: a map that holds nothing.
#[verifier::external_body]
pub(crate) fn store_new() -> (map: DashMap<String, CacheEntry<String>>)
    ensures
        stored(map).dom() == Set::<Seq<char>>::empty(),
        stored(map).dom().finite(),
{
    DashMap::new()
}

/// `DashMap::len`: the number of entries.
#[verifier::external_body]
pub(crate) fn store_len(map: &DashMap<String, CacheEntry<String>>) -> (n: usize)
    ensures
        n == stored(*map).len(),
{
    map.len()
}

/// `DashMap::insert`: the entry stands under `key` afterwards, in place of
/// what stood there; every other key keeps its entry.
#[verifier::external_body]
pub(crate) fn store_insert(
    map: &mut DashMap<String, CacheEntry<String>>,
    key: String,
    entry: CacheEntry<String>,
)
    ensures
        stored(*final(map)) == stored(*old(map)).insert(key@, entry@),
        stored(*final(map)).dom().finite(),
    no_unwind
{
    map.insert(key, entry);
}

/// `DashMap::remove`: the entry under `key` leaves the map and is handed
/// back, if there was one; every other key keeps its entry.
#[verifier::external_body]
pub(crate) fn store_remove(map: &mut DashMap<String, CacheEntry<String>>, key: &str) -> (gone:
    Option<CacheEntry<String>>)
    ensures
        stored(*final(map)) == stored(*old(map)).remove(key@),
        stored(*final(map)).dom().finite(),
        gone is Some == stored(*old(map)).contains_key(key@),
        gone matches Some(entry) ==> entry@ == stored(*old(map))[key@],
    no_unwind
{
    map.remove(key).map(|pair| pair.1)
}

/// `DashMap::clear`: nothing is left.
#[verifier::external_body]
pub(crate) fn store_clear(map: &mut DashMap<String, CacheEntry<String>>)
    ensures
        stored(*final(map)).dom() == Set::<Seq<char>>::empty(),
        stored(*final(map)).dom().finite(),
    no_unwind
{
    map.clear();
}

/// `DashMap::iter`, each item mapped to a copy of its key: every key of the
/// map once, in no particular order.
#[verifier::external_body]
pub(crate) fn store_keys(map: &DashMap<String, CacheEntry<String>>) -> (keys: Vec<String>)
    ensures
        views(keys@).no_duplicates(),
        views(keys@).to_set() == stored(*map).dom(),
{
    map.iter().map(|item| item.key().clone()).collect()
}

/// `DashMap::get`, mapped to the numbers of the entry found.
#[verifier::external_body]
pub(crate) fn store_meta(map: &DashMap<String, CacheEntry<String>>, key: &str) -> (meta: Option<
    EntryMeta,
>)
    ensures
        meta is Some == stored(*map).contains_key(key@),
        meta matches Some(m) ==> m == stored(*map)[key@].meta(),
{
    map.get(key).map(|item| item.value().meta())
}

/// `DashMap::get`, mapped to a copy of the tags of the entry found.
#[verifier::external_body]
pub(crate) fn store_tags(map: &DashMap<String, CacheEntry<String>>, key: &str) -> (tags: Option<
    Vec<String>,
>)
    ensures
        tags is Some == stored(*map).contains_key(key@),
        tags matches Some(t) ==> views(t@) == stored(*map)[key@].tags,
{
    map.get(key).map(|item| item.value().copy_tags())
}

} // verus!
