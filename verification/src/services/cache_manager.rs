//! A time-to-live cache with tags and eviction.
//!
//! The cache maps string keys to JSON texts. Its mathematical content is a
//! map from the characters of a key to the view of an entry; every contract
//! says how that map changes. Each operation that depends on the time comes
//! twice: under its plain name it reads the clock, and under a name that ends
//! in `_at` it takes the time as an argument.

pub use crate::text::glob_match;

use vstd::prelude::*;
use dashmap::DashMap;
use crate::clock::now_ms;
use crate::codec::{is_json, json_syntax_error, JsonText};
use crate::error::{BrewDeckError, ErrorKind};
use crate::services::cache_entry::{fresh_entry, CacheEntry, EntryView};
use crate::services::selection::{
    count_set,
    flag_lowest,
    flagged,
    lemma_flagged_len,
    lemma_push_to_set,
    min_of,
    pick_flagged,
};
use crate::services::store::{
    store_clear,
    store_insert,
    store_keys,
    store_len,
    store_meta,
    store_new,
    store_remove,
    store_tags,
    stored,
};
use crate::text::{
    contains,
    contains_string,
    glob_match_chars,
    glob_matches,
    is_substring,
    starts_with,
    to_chars,
    views,
};

verus! {

/// Which entries leave a full cache.
#[derive(Clone, Copy, Debug, PartialEq, Eq, Structural)]
pub enum EvictionStrategy {
    /// The entries that were read longest ago.
    LeastRecentlyUsed,
    /// The entries that were read least often.
    LeastFrequentlyUsed,
    /// The entries that were made first.
    FirstInFirstOut,
    /// The entries that have outlived their time to live, and no others.
    TimeToLive,
}

/// The settings of a cache. Durations are in milliseconds.
#[derive(Debug)]
pub struct CacheConfig {
    pub default_ttl: u64,
    pub max_entries: usize,
    pub cleanup_interval: u64,
    pub strategy: EvictionStrategy,
    pub persistence_enabled: bool,
    pub persistence_path: Option<String>,
}

impl Default for CacheConfig {
    /// Five minutes to live, a thousand entries, a sweep every minute, and
    /// eviction of what was read longest ago.
    fn default() -> (config: Self)
        ensures
            config.default_ttl == 300_000,
            config.max_entries == 1000,
            config.cleanup_interval == 60_000,
            config.strategy == EvictionStrategy::LeastRecentlyUsed,
            config.persistence_enabled,
            config.persistence_path is None,
    {
        CacheConfig {
            default_ttl: 300_000,
            max_entries: 1000,
            cleanup_interval: 60_000,
            strategy: EvictionStrategy::LeastRecentlyUsed,
            persistence_enabled: true,
            persistence_path: None,
        }
    }
}

/// Figures about the entries of a cache at one moment.
#[derive(Clone, Copy, Debug, PartialEq, Eq, Structural)]
pub struct CacheStats {
    /// The number of entries.
    pub entry_count: usize,
    /// The number of entries that have outlived their time to live and are
    /// still stored.
    pub expired_count: usize,
    /// The sum of the access counts, or the largest `u64` if the sum is
    /// larger.
    pub total_access_count: u64,
    /// The mean age of the entries in milliseconds, each age taken in whole
    /// seconds; zero for an empty cache.
    pub average_age_ms: u64,
}

/// The content of a cache: the entries by the characters of their keys.
pub type Contents = Map<Seq<char>, EntryView<Seq<char>>>;

/// What every stored entry satisfies: it was not read before it was made, and
/// its value is well-formed JSON.
pub open spec fn entry_ok(e: EntryView<Seq<char>>) -> bool {
    e.well_formed() && is_json(e.data)
}

/// What a read of `key` at time `now` returns and leaves behind.
///
/// A key that is not stored yields nothing. An entry that has outlived its
/// time to live yields nothing and is removed. Any other entry yields its
/// value and is touched.
pub open spec fn lookup(m: Contents, key: Seq<char>, now: i64) -> (Option<Seq<char>>, Contents) {
    if !m.contains_key(key) {
        (None, m)
    } else if m[key].expired_at(now) {
        (None, m.remove(key))
    } else {
        (Some(m[key].data), m.insert(key, m[key].touched(now)))
    }
}

/// Whether `key` is hit by `pattern`: the pattern occurs in the key, or stands
/// at its start, or matches it as a glob.
pub open spec fn key_matches(pattern: Seq<char>, key: Seq<char>) -> bool {
    is_substring(pattern, key) || pattern.is_prefix_of(key) || glob_matches(pattern, key)
}

/// The content without the entries whose key is hit by `pattern`.
pub open spec fn without_matching(m: Contents, pattern: Seq<char>) -> Contents {
    m.remove_keys(Set::new(|k: Seq<char>| key_matches(pattern, k)))
}

/// The content without the entries that carry one of `tags`.
pub open spec fn without_tagged(m: Contents, tags: Seq<Seq<char>>) -> Contents {
    m.remove_keys(Set::new(|k: Seq<char>| m.contains_key(k) && m[k].tagged_with_any(tags)))
}

/// The content without the entries that have outlived their time to live at
/// time `now`.
pub open spec fn without_expired(m: Contents, now: i64) -> Contents {
    m.remove_keys(Set::new(|k: Seq<char>| m.contains_key(k) && m[k].expired_at(now)))
}

/// The number by which a strategy orders the entries: the lowest leave first.
pub open spec fn rank(e: EntryView<Seq<char>>, strategy: EvictionStrategy) -> int {
    match strategy {
        EvictionStrategy::LeastRecentlyUsed => e.last_accessed as int,
        EvictionStrategy::LeastFrequentlyUsed => e.access_count as int,
        EvictionStrategy::FirstInFirstOut => e.created_at as int,
        EvictionStrategy::TimeToLive => 0,
    }
}

/// The number of entries that one eviction removes under an ordering
/// strategy: a tenth of the capacity, and at least one.
pub open spec fn eviction_batch(max_entries: usize) -> int {
    if max_entries / 10 > 0 {
        max_entries as int / 10
    } else {
        1
    }
}

/// `after` is what one eviction at time `now` may leave of `before`.
///
/// Nothing is added or changed. Under `TimeToLive` exactly the entries that
/// have outlived their time to live are gone. Under the other strategies
/// `batch` entries are gone, or all if there were fewer, and none of them
/// ranks above an entry that stayed; which of several entries of equal rank
/// leaves is not determined.
pub open spec fn evicted(
    before: Contents,
    after: Contents,
    strategy: EvictionStrategy,
    batch: int,
    now: i64,
) -> bool {
    &&& after.submap_of(before)
    &&& match strategy {
        EvictionStrategy::TimeToLive => after == without_expired(before, now),
        _ => {
            &&& before.len() - after.len() == min_of(batch, before.len() as int)
            &&& forall|gone: Seq<char>, kept: Seq<char>|
                before.contains_key(gone) && !after.contains_key(gone) && after.contains_key(kept)
                    ==> rank(before[gone], strategy) <= rank(before[kept], strategy)
        },
    }
}

/// `after` is what storing `entry` under `key` at time `now` may leave of
/// `before`: a cache that is at or over its capacity is evicted first.
pub open spec fn stored_after_set(
    before: Contents,
    after: Contents,
    max_entries: usize,
    strategy: EvictionStrategy,
    key: Seq<char>,
    entry: EntryView<Seq<char>>,
    now: i64,
) -> bool {
    if before.len() >= max_entries {
        exists|mid: Contents|
            #![trigger mid.insert(key, entry)]
            evicted(before, mid, strategy, eviction_batch(max_entries), now) && after
                == mid.insert(key, entry)
    } else {
        after == before.insert(key, entry)
    }
}

/// What storing `value` under `key` at time `now` returns and leaves behind.
///
/// A value that is not well-formed JSON is refused with a
/// `SerializationError` that carries the parser's message, and the content
/// stays as it was. Any other value is stored as a fresh entry; see
/// [`stored_after_set`].
pub open spec fn set_post(
    before: Contents,
    after: Contents,
    r: Result<(), BrewDeckError>,
    max_entries: usize,
    strategy: EvictionStrategy,
    key: Seq<char>,
    value: Seq<char>,
    ttl: u64,
    tags: Seq<Seq<char>>,
    now: i64,
) -> bool {
    match json_syntax_error(value) {
        Some(message) => {
            &&& r matches Err(e)
            &&& e@.kind == ErrorKind::SerializationError
            &&& e@.message == message
            &&& after == before
        },
        None => {
            &&& r is Ok
            &&& stored_after_set(
                before,
                after,
                max_entries,
                strategy,
                key,
                fresh_entry(value, ttl, tags, now),
                now,
            )
        },
    }
}

/// The time to live that is asked for, or else the default one.
pub open spec fn ttl_or(ttl: Option<u64>, default_ttl: u64) -> u64 {
    match ttl {
        Some(t) => t,
        None => default_ttl,
    }
}

/// A quantity that is summed over the entries of a cache.
pub enum Measure {
    /// The access count of an entry.
    Accesses,
    /// The age of an entry at the given time, in milliseconds, taken in whole
    /// seconds.
    AgeMs(i64),
}

/// What one entry adds to the sum of a measure.
pub open spec fn summand(e: EntryView<Seq<char>>, measure: Measure) -> nat {
    match measure {
        Measure::Accesses => e.access_count as nat,
        Measure::AgeMs(now) => (e.age_at(now) * 1000) as nat,
    }
}

/// The sum of a measure over the entries of `m`.
pub open spec fn sum_over(m: Contents, measure: Measure) -> nat
    decreases m.dom().len(),
{
    if m.dom().finite() && m.dom().len() > 0 {
        let k = m.dom().choose();
        summand(m[k], measure) + sum_over(m.remove(k), measure)
    } else {
        0
    }
}

/// The sum over a map is the summand at any one key plus the sum over the
/// rest.
pub proof fn lemma_sum_over_remove(m: Contents, measure: Measure, key: Seq<char>)
    requires
        m.dom().finite(),
        m.contains_key(key),
    ensures
        sum_over(m, measure) == summand(m[key], measure) + sum_over(m.remove(key), measure),
    decreases m.dom().len(),
{
    let k = m.dom().choose();
    if k != key {
        lemma_sum_over_remove(m.remove(k), measure, key);
        lemma_sum_over_remove(m.remove(key), measure, k);
        assert(m.remove(k).remove(key) =~= m.remove(key).remove(k));
    }
}

/// The views of an optional string.
pub open spec fn text_of(s: Option<String>) -> Option<Seq<char>> {
    match s {
        Some(t) => Some(t@),
        None => None,
    }
}

/// The figures about `m` at time `now`.
pub open spec fn stats_of(m: Contents, now: i64) -> CacheStats {
    let accesses = sum_over(m, Measure::Accesses);
    let ages = sum_over(m, Measure::AgeMs(now));
    CacheStats {
        entry_count: m.len() as usize,
        expired_count: m.dom().filter(|k: Seq<char>| m[k].expired_at(now)).len() as usize,
        total_access_count: if accesses <= u64::MAX {
            accesses as u64
        } else {
            u64::MAX
        },
        average_age_ms: if m.len() > 0 {
            (ages / m.len()) as u64
        } else {
            0
        },
    }
}

/// What the end of a background refresh of `key` at time `now` leaves behind:
/// a fetched value that is well-formed JSON replaces the entry, as a fresh
/// entry without tags; a failed fetch or any other value changes nothing.
pub open spec fn refreshed(
    before: Contents,
    key: Seq<char>,
    fetched: Option<Seq<char>>,
    ttl: u64,
    now: i64,
) -> Contents {
    match fetched {
        Some(value) => if is_json(value) {
            before.insert(key, fresh_entry(value, ttl, Seq::empty(), now))
        } else {
            before
        },
        None => before,
    }
}

/// The value of a successful fetch.
pub open spec fn fetched_text(outcome: Result<String, BrewDeckError>) -> Option<Seq<char>> {
    match outcome {
        Ok(value) => Some(value@),
        Err(_) => None,
    }
}

/// An entry that has outlived its time to live is not returned by a read,
/// and the read removes it, whether or not a sweep has run.
pub proof fn lemma_expired_is_absent(m: Contents, key: Seq<char>, now: i64)
    requires
        m.contains_key(key),
        now > m[key].created_at + m[key].ttl,
    ensures
        lookup(m, key, now).0 is None,
        !lookup(m, key, now).1.contains_key(key),
{
}

/// A value that was stored is returned by a read as long as its time to live
/// has not passed, and no longer afterwards.
pub proof fn lemma_read_after_set(
    before: Contents,
    after: Contents,
    max_entries: usize,
    strategy: EvictionStrategy,
    key: Seq<char>,
    value: Seq<char>,
    ttl: u64,
    tags: Seq<Seq<char>>,
    stored_at: i64,
    now: i64,
)
    requires
        stored_after_set(
            before,
            after,
            max_entries,
            strategy,
            key,
            fresh_entry(value, ttl, tags, stored_at),
            stored_at,
        ),
    ensures
        now <= stored_at + ttl ==> lookup(after, key, now).0 == Some(value),
        now > stored_at + ttl ==> lookup(after, key, now).0 is None,
{
    let entry = fresh_entry(value, ttl, tags, stored_at);
    if before.len() >= max_entries {
        let mid = choose|mid: Contents|
            #![trigger mid.insert(key, entry)]
            evicted(before, mid, strategy, eviction_batch(max_entries), stored_at) && after
                == mid.insert(key, entry);
        assert(after[key] == entry);
    }
}

/// A read never lowers the access count of an entry or the time of its last
/// access, and leaves a well-formed entry well-formed; it changes nothing
/// else of the entry, and no other entry.
pub proof fn lemma_read_is_monotone(m: Contents, key: Seq<char>, now: i64, other: Seq<char>)
    requires
        m.contains_key(key),
        !m[key].expired_at(now),
    ensures
        lookup(m, key, now).1.contains_key(key),
        lookup(m, key, now).1[key].access_count >= m[key].access_count,
        lookup(m, key, now).1[key].last_accessed >= m[key].last_accessed,
        lookup(m, key, now).1[key].created_at == m[key].created_at,
        lookup(m, key, now).1[key].data == m[key].data,
        lookup(m, key, now).1[key].tags == m[key].tags,
        m[key].well_formed() ==> lookup(m, key, now).1[key].well_formed(),
        other != key ==> (lookup(m, key, now).1.contains_key(other) <==> m.contains_key(other)),
        other != key && m.contains_key(other) ==> lookup(m, key, now).1[other] == m[other],
{
}

/// Invalidation by tags removes every entry that carries one of the tags and
/// no entry that carries none of them, and leaves what stays unchanged.
pub proof fn lemma_invalidate_by_tags_exact(m: Contents, tags: Seq<Seq<char>>, key: Seq<char>)
    ensures
        without_tagged(m, tags).contains_key(key) <==> m.contains_key(key)
            && !m[key].tagged_with_any(tags),
        without_tagged(m, tags).contains_key(key) ==> without_tagged(m, tags)[key] == m[key],
{
}

/// An entry that carries the tag `tag` carries one of the tags of any list
/// that holds `tag`.
pub proof fn lemma_tagged(e: EntryView<Seq<char>>, tags: Seq<Seq<char>>, tag: Seq<char>)
    requires
        e.tags.contains(tag),
        tags.contains(tag),
    ensures
        e.tagged_with_any(tags),
{
    let i = choose|i: int| 0 <= i < e.tags.len() && e.tags[i] == tag;
    assert(tags.contains(e.tags[i]));
}

/// One eviction under an ordering strategy takes a full batch out of a cache
/// that holds at least that many entries, and the entries that stay rank no
/// lower than those that left.
pub proof fn lemma_eviction_takes_lowest(
    before: Contents,
    after: Contents,
    strategy: EvictionStrategy,
    batch: int,
    now: i64,
)
    requires
        before.dom().finite(),
        strategy != EvictionStrategy::TimeToLive,
        0 <= batch <= before.len(),
        evicted(before, after, strategy, batch, now),
    ensures
        after.len() == before.len() - batch,
        after.dom().subset_of(before.dom()),
        forall|gone: Seq<char>, kept: Seq<char>|
            before.contains_key(gone) && !after.contains_key(gone) && after.contains_key(kept)
                ==> rank(before[gone], strategy) <= rank(before[kept], strategy),
{
}

/// Under an ordering strategy an entry does not leave before an entry that
/// ranks strictly lower: if an entry is evicted, so is every entry below it.
pub proof fn lemma_lower_rank_leaves_first(
    before: Contents,
    after: Contents,
    strategy: EvictionStrategy,
    batch: int,
    now: i64,
    lower: Seq<char>,
    higher: Seq<char>,
)
    requires
        strategy != EvictionStrategy::TimeToLive,
        evicted(before, after, strategy, batch, now),
        before.contains_key(lower),
        before.contains_key(higher),
        rank(before[lower], strategy) < rank(before[higher], strategy),
        !after.contains_key(higher),
    ensures
        !after.contains_key(lower),
{
}

/// Storing into a cache that is within its capacity leaves it within its
/// capacity, under every strategy that orders the entries; a cache that was
/// full holds at most `max_entries - eviction_batch(max_entries) + 1` entries
/// afterwards.
pub proof fn lemma_set_keeps_capacity(
    before: Contents,
    after: Contents,
    max_entries: usize,
    strategy: EvictionStrategy,
    key: Seq<char>,
    entry: EntryView<Seq<char>>,
    now: i64,
)
    requires
        before.dom().finite(),
        strategy != EvictionStrategy::TimeToLive,
        max_entries >= 1,
        before.len() <= max_entries,
        stored_after_set(before, after, max_entries, strategy, key, entry, now),
    ensures
        after.dom().finite(),
        after.len() <= max_entries,
        before.len() == max_entries ==> after.len() <= max_entries - eviction_batch(max_entries)
            + 1,
{
    if before.len() >= max_entries {
        let mid = choose|mid: Contents|
            #![trigger mid.insert(key, entry)]
            evicted(before, mid, strategy, eviction_batch(max_entries), now) && after
                == mid.insert(key, entry);
        assert(mid.dom().subset_of(before.dom()));
        vstd::set_lib::lemma_len_subset(mid.dom(), before.dom());
        assert(after.dom() =~= mid.dom().insert(key));
    } else {
        assert(after.dom() =~= before.dom().insert(key));
    }
}

/// A cache of JSON texts under string keys.
pub struct CacheManager {
    storage: DashMap<String, CacheEntry<String>>,
    config: CacheConfig,
}

impl View for CacheManager {
    type V = Contents;

    closed spec fn view(&self) -> Contents {
        stored(self.storage)
    }
}

impl CacheManager {
    #[verifier::type_invariant]
    spec fn sound(&self) -> bool {
        &&& stored(self.storage).dom().finite()
        &&& forall|k: Seq<char>| #[trigger]
            stored(self.storage).contains_key(k) ==> entry_ok(stored(self.storage)[k])
    }

    /// The settings with which the cache was made, all of them.
    pub closed spec fn settings(&self) -> CacheConfig {
        self.config
    }

    /// The time to live of an entry that is stored without one.
    pub open spec fn default_ttl(&self) -> u64 {
        self.settings().default_ttl
    }

    /// The capacity: a `set` that finds this many entries evicts first.
    pub open spec fn max_entries(&self) -> usize {
        self.settings().max_entries
    }

    /// The strategy by which a full cache is evicted.
    pub open spec fn strategy(&self) -> EvictionStrategy {
        self.settings().strategy
    }

    /// The two caches have the same settings, all of them. No operation on a
    /// cache changes its settings.
    pub open spec fn same_settings(&self, other: &CacheManager) -> bool {
        self.settings() == other.settings()
    }

    /// An empty cache with the given settings.
    pub fn new(config: CacheConfig) -> (cache: Self)
        ensures
            cache@ == Map::<Seq<char>, EntryView<Seq<char>>>::empty(),
            cache.settings() == config,
            cache@.dom().finite(),
    {
        let storage = store_new();
        assert(stored(storage) =~= Map::<Seq<char>, EntryView<Seq<char>>>::empty());
        CacheManager { storage, config }
    }

    /// The settings of the cache.
    pub fn config(&self) -> (config: &CacheConfig)
        ensures
            *config == self.settings(),
    {
        &self.config
    }

    /// Reads `key` at the current time; see [`CacheManager::get_at`].
    pub fn get(&mut self, key: &str) -> (value: Option<String>)
        ensures
            exists|now: i64| (text_of(value), final(self)@) == lookup(old(self)@, key@, now),
            final(self).same_settings(old(self)),
            final(self)@.dom().finite(),
    {
        let now = now_ms();
        let value = self.get_at(key, now);
        assert((text_of(value), self@) == lookup(old(self)@, key@, now));
        value
    }

    /// Reads `key` at time `now`.
    ///
    /// Returns the value if the key is stored and has not outlived its time
    /// to live, and then counts the access. An entry that has outlived its
    /// time to live is removed and nothing is returned, whether or not a
    /// sweep has run.
    pub fn get_at(&mut self, key: &str, now: i64) -> (value: Option<String>)
        ensures
            (text_of(value), final(self)@) == lookup(old(self)@, key@, now),
            value matches Some(text) ==> is_json(text@),
            final(self).same_settings(old(self)),
            final(self)@.dom().finite(),
    {
        proof {
            use_type_invariant(&*self);
        }
        match store_remove(&mut self.storage, key) {
            None => {
                assert(self@ =~= old(self)@);
                None
            },
            Some(entry) => {
                if entry.is_expired_at(now) {
                    None
                } else {
                    let mut entry = entry;
                    entry.access_at(now);
                    let value = entry.data.clone();
                    store_insert(&mut self.storage, key.to_owned(), entry);
                    assert(self@ =~= old(self)@.insert(key@, old(self)@[key@].touched(now)));
                    Some(value)
                }
            },
        }
    }

    /// Stores `value` under `key` without tags at the current time; see
    /// [`CacheManager::set_with_tags_at`].
    pub fn set(&mut self, key: &str, value: String, ttl: Option<u64>) -> (r: Result<
        (),
        BrewDeckError,
    >)
        ensures
            exists|now: i64|
                #[trigger] set_post(
                    old(self)@,
                    final(self)@,
                    r,
                    old(self).max_entries(),
                    old(self).strategy(),
                    key@,
                    value@,
                    ttl_or(ttl, old(self).default_ttl()),
                    Seq::empty(),
                    now,
                ),
            final(self).same_settings(old(self)),
            final(self)@.dom().finite(),
    {
        let now = now_ms();
        let r = self.set_at(key, value, ttl, now);
        assert(set_post(
            old(self)@,
            self@,
            r,
            old(self).max_entries(),
            old(self).strategy(),
            key@,
            value@,
            ttl_or(ttl, old(self).default_ttl()),
            Seq::empty(),
            now,
        ));
        r
    }

    /// Stores `value` under `key` without tags at time `now`; see
    /// [`CacheManager::set_with_tags_at`].
    pub fn set_at(&mut self, key: &str, value: String, ttl: Option<u64>, now: i64) -> (r: Result<
        (),
        BrewDeckError,
    >)
        ensures
            set_post(
                old(self)@,
                final(self)@,
                r,
                old(self).max_entries(),
                old(self).strategy(),
                key@,
                value@,
                ttl_or(ttl, old(self).default_ttl()),
                Seq::empty(),
                now,
            ),
            final(self).same_settings(old(self)),
            final(self)@.dom().finite(),
    {
        let tags: Vec<String> = Vec::new();
        assert(views(tags@) =~= Seq::empty());
        self.set_with_tags_at(key, value, ttl, tags, now)
    }

    /// Stores `value` under `key` with `tags` at the current time; see
    /// [`CacheManager::set_with_tags_at`].
    pub fn set_with_tags(
        &mut self,
        key: &str,
        value: String,
        ttl: Option<u64>,
        tags: Vec<String>,
    ) -> (r: Result<(), BrewDeckError>)
        ensures
            exists|now: i64|
                #[trigger] set_post(
                    old(self)@,
                    final(self)@,
                    r,
                    old(self).max_entries(),
                    old(self).strategy(),
                    key@,
                    value@,
                    ttl_or(ttl, old(self).default_ttl()),
                    views(tags@),
                    now,
                ),
            final(self).same_settings(old(self)),
            final(self)@.dom().finite(),
    {
        let now = now_ms();
        let r = self.set_with_tags_at(key, value, ttl, tags, now);
        assert(set_post(
            old(self)@,
            self@,
            r,
            old(self).max_entries(),
            old(self).strategy(),
            key@,
            value@,
            ttl_or(ttl, old(self).default_ttl()),
            views(tags@),
            now,
        ));
        r
    }

    /// Stores `value` under `key` with `tags` at time `now`.
    ///
    /// A value that is not well-formed JSON is refused with a
    /// `SerializationError` that carries the parser's message, and the cache
    /// stays as it was. Any other value is stored as a fresh entry in place of
    /// what stood under the key, with the given time to live or else the
    /// default one. A cache that holds `max_entries` entries or more is
    /// evicted first; the capacity itself never makes the call fail.
    pub fn set_with_tags_at(
        &mut self,
        key: &str,
        value: String,
        ttl: Option<u64>,
        tags: Vec<String>,
        now: i64,
    ) -> (r: Result<(), BrewDeckError>)
        ensures
            set_post(
                old(self)@,
                final(self)@,
                r,
                old(self).max_entries(),
                old(self).strategy(),
                key@,
                value@,
                ttl_or(ttl, old(self).default_ttl()),
                views(tags@),
                now,
            ),
            final(self).same_settings(old(self)),
            final(self)@.dom().finite(),
    {
        proof {
            use_type_invariant(&*self);
        }
        match JsonText::parse(value) {
            Err(e) => Err(e),
            Ok(json) => {
                self.put_at(key, json, ttl, tags, now);
                Ok(())
            },
        }
    }

    /// Stores a checked value under `key` with `tags` at time `now`.
    ///
    /// The value is stored as a fresh entry in place of what stood under the
    /// key, with the given time to live or else the default one. A cache that
    /// holds `max_entries` entries or more is evicted first; see
    /// [`stored_after_set`].
    pub fn put_at(
        &mut self,
        key: &str,
        value: JsonText,
        ttl: Option<u64>,
        tags: Vec<String>,
        now: i64,
    )
        ensures
            stored_after_set(
                old(self)@,
                final(self)@,
                old(self).max_entries(),
                old(self).strategy(),
                key@,
                fresh_entry(value@, ttl_or(ttl, old(self).default_ttl()), views(tags@), now),
                now,
            ),
            final(self).same_settings(old(self)),
            final(self)@.dom().finite(),
    {
        let ttl = match ttl {
            Some(t) => t,
            None => self.config.default_ttl,
        };
        let entry = CacheEntry::new_at(value.into_string(), ttl, now).with_tags(tags);
        if store_len(&self.storage) >= self.config.max_entries {
            self.evict_entries(now);
        }
        let ghost mid = self@;
        proof {
            use_type_invariant(&*self);
        }
        store_insert(&mut self.storage, key.to_owned(), entry);
        assert(self@ == mid.insert(key@, entry@));
    }

    /// Removes the entry under `key`, and says whether there was one.
    pub fn invalidate(&mut self, key: &str) -> (existed: bool)
        ensures
            existed == old(self)@.contains_key(key@),
            final(self)@ == old(self)@.remove(key@),
            final(self).same_settings(old(self)),
            final(self)@.dom().finite(),
    {
        proof {
            use_type_invariant(&*self);
        }
        match store_remove(&mut self.storage, key) {
            Some(_) => true,
            None => false,
        }
    }

    /// Removes every entry whose key is hit by `pattern`, and returns their
    /// number; see [`key_matches`].
    pub fn invalidate_pattern(&mut self, pattern: &str) -> (removed: usize)
        ensures
            final(self)@ == without_matching(old(self)@, pattern@),
            removed == old(self)@.len() - final(self)@.len(),
            final(self).same_settings(old(self)),
            final(self)@.dom().finite(),
    {
        let keys = store_keys(&self.storage);
        let wanted = to_chars(pattern);
        let mut flags: Vec<bool> = Vec::new();
        let mut i: usize = 0;
        while i < keys.len()
            invariant
                i <= keys.len(),
                flags.len() == i,
                wanted@ == pattern@,
                forall|j: int| 0 <= j < i ==> flags@[j] == key_matches(pattern@, views(keys@)[j]),
            decreases keys.len() - i,
        {
            let flag = Self::key_hit(wanted.as_slice(), keys[i].as_str());
            flags.push(flag);
            i += 1;
        }
        let removed = self.remove_flagged(&keys, &flags);
        proof {
            let hit = Set::new(|k: Seq<char>| key_matches(pattern@, k));
            assert forall|k: Seq<char>| old(self)@.contains_key(k) implies (flagged(
                views(keys@),
                flags@,
            ).contains(k) <==> hit.contains(k)) by {
                assert(views(keys@).to_set().contains(k));
                let j = choose|j: int| 0 <= j < views(keys@).len() && views(keys@)[j] == k;
                assert(flags@[j] == key_matches(pattern@, k));
                if flagged(views(keys@), flags@).contains(k) {
                    let i2 = choose|i2: int|
                        0 <= i2 < views(keys@).len() && i2 < flags@.len() && flags@[i2] && views(
                            keys@,
                        )[i2] == k;
                    assert(flags@[i2] == key_matches(pattern@, views(keys@)[i2]));
                }
            }
            assert(self@ =~= without_matching(old(self)@, pattern@));
        }
        removed
    }

    /// Whether a key is hit by a pattern.
    fn key_hit(pattern: &[char], key: &str) -> (hit: bool)
        ensures
            hit == key_matches(pattern@, key@),
    {
        let k = to_chars(key);
        if contains(k.as_slice(), pattern) {
            return true;
        }
        if starts_with(k.as_slice(), pattern) {
            return true;
        }
        glob_match_chars(pattern, k.as_slice())
    }

    /// Removes every entry that carries one of `tags`, and returns their
    /// number. An entry that carries none of them stays.
    pub fn invalidate_by_tags(&mut self, tags: &Vec<String>) -> (removed: usize)
        ensures
            final(self)@ == without_tagged(old(self)@, views(tags@)),
            removed == old(self)@.len() - final(self)@.len(),
            final(self).same_settings(old(self)),
            final(self)@.dom().finite(),
    {
        let keys = store_keys(&self.storage);
        let mut flags: Vec<bool> = Vec::new();
        let mut i: usize = 0;
        while i < keys.len()
            invariant
                i <= keys.len(),
                flags.len() == i,
                views(keys@).to_set() == self@.dom(),
                forall|j: int|
                    0 <= j < i ==> flags@[j] == self@[views(keys@)[j]].tagged_with_any(
                        views(tags@),
                    ),
            decreases keys.len() - i,
        {
            assert(views(keys@).to_set().contains(views(keys@)[i as int]));
            let flag = match store_tags(&self.storage, keys[i].as_str()) {
                Some(own) => Self::share_a_tag(&own, tags),
                None => false,
            };
            flags.push(flag);
            i += 1;
        }
        let removed = self.remove_flagged(&keys, &flags);
        proof {
            let before = old(self)@;
            let hit = Set::new(
                |k: Seq<char>| before.contains_key(k) && before[k].tagged_with_any(views(tags@)),
            );
            assert forall|k: Seq<char>| before.contains_key(k) implies (flagged(
                views(keys@),
                flags@,
            ).contains(k) <==> hit.contains(k)) by {
                assert(views(keys@).to_set().contains(k));
                let j = choose|j: int| 0 <= j < views(keys@).len() && views(keys@)[j] == k;
                assert(flags@[j] == before[k].tagged_with_any(views(tags@)));
                if flagged(views(keys@), flags@).contains(k) {
                    let i2 = choose|i2: int|
                        0 <= i2 < views(keys@).len() && i2 < flags@.len() && flags@[i2] && views(
                            keys@,
                        )[i2] == k;
                    assert(flags@[i2] == before[views(keys@)[i2]].tagged_with_any(views(tags@)));
                }
            }
            assert(self@ =~= without_tagged(before, views(tags@)));
        }
        removed
    }

    /// Whether one of `own` is among `wanted`.
    fn share_a_tag(own: &Vec<String>, wanted: &Vec<String>) -> (shared: bool)
        ensures
            shared == exists|i: int|
                0 <= i < own.len() && views(wanted@).contains(#[trigger] views(own@)[i]),
    {
        let mut i: usize = 0;
        while i < own.len()
            invariant
                i <= own.len(),
                forall|j: int| 0 <= j < i ==> !views(wanted@).contains(#[trigger] views(own@)[j]),
            decreases own.len() - i,
        {
            if contains_string(wanted, own[i].as_str()) {
                assert(views(wanted@).contains(views(own@)[i as int]));
                return true;
            }
            i += 1;
        }
        false
    }

    /// Removes every entry.
    pub fn clear(&mut self)
        ensures
            final(self)@ == Map::<Seq<char>, EntryView<Seq<char>>>::empty(),
            final(self).same_settings(old(self)),
            final(self)@.dom().finite(),
    {
        store_clear(&mut self.storage);
        assert(self@ =~= Map::<Seq<char>, EntryView<Seq<char>>>::empty());
    }

    /// The number of entries, expired ones included.
    pub fn size(&self) -> (n: usize)
        ensures
            n == self@.len(),
            self@.dom().finite(),
    {
        proof {
            use_type_invariant(self);
        }
        store_len(&self.storage)
    }

    /// The figures about the cache at the current time; see
    /// [`CacheManager::stats_at`].
    pub fn stats(&self) -> (stats: CacheStats)
        ensures
            exists|now: i64| stats == #[trigger] stats_of(self@, now),
    {
        let now = now_ms();
        let stats = self.stats_at(now);
        assert(stats == stats_of(self@, now));
        stats
    }

    /// The figures about the cache at time `now`: the number of entries, the
    /// number of those that have outlived their time to live, the sum of the
    /// access counts, and the mean age.
    pub fn stats_at(&self, now: i64) -> (stats: CacheStats)
        ensures
            stats == stats_of(self@, now),
    {
        proof {
            use_type_invariant(self);
        }
        let keys = store_keys(&self.storage);
        let flags = self.flag_expired(&keys, now);
        let ghost whole = self@;
        let mut accesses: u128 = 0;
        let mut ages: u128 = 0;
        let mut expired: usize = 0;
        let mut i: usize = 0;
        proof {
            views(keys@).unique_seq_to_set();
            assert(views(keys@).take(0).to_set() =~= Set::<Seq<char>>::empty());
            assert(whole.remove_keys(Set::<Seq<char>>::empty()) =~= whole);
            assert(flags@.take(0) =~= Seq::<bool>::empty());
        }
        while i < keys.len()
            invariant
                i <= keys.len(),
                flags.len() == keys.len(),
                whole == self@,
                whole.dom().finite(),
                views(keys@).no_duplicates(),
                views(keys@).to_set() == whole.dom(),
                expired == count_set(flags@.take(i as int)),
                accesses <= i * u64::MAX,
                ages <= i * u64::MAX,
                accesses + sum_over(
                    whole.remove_keys(views(keys@).take(i as int).to_set()),
                    Measure::Accesses,
                ) == sum_over(whole, Measure::Accesses),
                ages + sum_over(
                    whole.remove_keys(views(keys@).take(i as int).to_set()),
                    Measure::AgeMs(now),
                ) == sum_over(whole, Measure::AgeMs(now)),
            decreases keys.len() - i,
        {
            let ghost k = views(keys@)[i as int];
            let ghost rest = whole.remove_keys(views(keys@).take(i as int).to_set());
            proof {
                assert(views(keys@).to_set().contains(k));
                assert(!views(keys@).take(i as int).to_set().contains(k)) by {
                    if views(keys@).take(i as int).contains(k) {
                        let at = choose|at: int|
                            0 <= at < i && views(keys@).take(i as int)[at] == k;
                        assert(views(keys@)[at] == views(keys@)[i as int]);
                    }
                }
                assert(rest.contains_key(k));
                assert(rest.dom().subset_of(whole.dom()));
                vstd::set_lib::lemma_len_subset(rest.dom(), whole.dom());
                lemma_sum_over_remove(rest, Measure::Accesses, k);
                lemma_sum_over_remove(rest, Measure::AgeMs(now), k);
                assert(views(keys@).take(i + 1) =~= views(keys@).take(i as int).push(k));
                lemma_push_to_set(views(keys@).take(i as int), k);
                assert(rest.remove(k) =~= whole.remove_keys(views(keys@).take(i + 1).to_set()));
                assert(flags@.take(i + 1) =~= flags@.take(i as int).push(flags@[i as int]));
                crate::services::selection::lemma_count_push(
                    flags@.take(i as int),
                    flags@[i as int],
                );
                crate::services::selection::lemma_count_bounds(flags@.take(i as int));
            }
            match store_meta(&self.storage, keys[i].as_str()) {
                Some(meta) => {
                    let age_ms: u64 = meta.age(now) * 1000;
                    accesses = accesses + meta.access_count as u128;
                    ages = ages + age_ms as u128;
                },
                None => {},
            }
            if flags[i] {
                expired = expired + 1;
            }
            i += 1;
        }
        proof {
            assert(views(keys@).take(keys.len() as int) =~= views(keys@));
            assert(flags@.take(keys.len() as int) =~= flags@);
            let rest = whole.remove_keys(views(keys@).to_set());
            assert(rest.dom() =~= Set::<Seq<char>>::empty());
            assert(sum_over(rest, Measure::Accesses) == 0);
            assert(sum_over(rest, Measure::AgeMs(now)) == 0);
            lemma_flagged_len(views(keys@), flags@);
            assert forall|k: Seq<char>|
                flagged(views(keys@), flags@).contains(k) <==> whole.dom().filter(
                    |k: Seq<char>| whole[k].expired_at(now),
                ).contains(k) by {
                if flagged(views(keys@), flags@).contains(k) {
                    let j = choose|j: int|
                        0 <= j < views(keys@).len() && j < flags@.len() && flags@[j] && views(
                            keys@,
                        )[j] == k;
                    assert(views(keys@).to_set().contains(k));
                    assert(flags@[j] == whole[views(keys@)[j]].expired_at(now));
                }
                if whole.dom().contains(k) && whole[k].expired_at(now) {
                    assert(views(keys@).to_set().contains(k));
                    let j = choose|j: int| 0 <= j < views(keys@).len() && views(keys@)[j] == k;
                    assert(flags@[j] == whole[views(keys@)[j]].expired_at(now));
                }
            }
            assert(flagged(views(keys@), flags@) =~= whole.dom().filter(
                |k: Seq<char>| whole[k].expired_at(now),
            ));
        }
        let n = keys.len();
        let total_access_count: u64 = if accesses <= u64::MAX as u128 {
            accesses as u64
        } else {
            u64::MAX
        };
        let average_age_ms: u64 = if n > 0 {
            assert(ages / (n as u128) <= u64::MAX) by (nonlinear_arith)
                requires
                    ages <= n * u64::MAX,
                    n > 0,
            ;
            (ages / (n as u128)) as u64
        } else {
            0
        };
        CacheStats { entry_count: n, expired_count: expired, total_access_count, average_age_ms }
    }

    /// Ends a background refresh of `key` at the current time; see
    /// [`CacheManager::complete_refresh_at`].
    pub fn complete_refresh(&mut self, key: &str, outcome: Result<String, BrewDeckError>) -> (stored:
        bool)
        ensures
            exists|now: i64|
                final(self)@ == #[trigger] refreshed(
                    old(self)@,
                    key@,
                    fetched_text(outcome),
                    old(self).default_ttl(),
                    now,
                ),
            stored == (fetched_text(outcome) matches Some(value) && is_json(value)),
            final(self).same_settings(old(self)),
            final(self)@.dom().finite(),
    {
        let now = now_ms();
        let stored = self.complete_refresh_at(key, outcome, now);
        assert(self@ == refreshed(
            old(self)@,
            key@,
            fetched_text(outcome),
            old(self).default_ttl(),
            now,
        ));
        stored
    }

    /// Ends a background refresh of `key` at time `now`.
    ///
    /// A fetched value that is well-formed JSON replaces the entry under
    /// `key`, as a fresh entry with the default time to live and no tags; no
    /// eviction runs. A failed fetch, or a value that is not well-formed JSON,
    /// changes nothing: the failure is the caller's to log, and it is never
    /// retried here.
    pub fn complete_refresh_at(
        &mut self,
        key: &str,
        outcome: Result<String, BrewDeckError>,
        now: i64,
    ) -> (stored: bool)
        ensures
            final(self)@ == refreshed(
                old(self)@,
                key@,
                fetched_text(outcome),
                old(self).default_ttl(),
                now,
            ),
            stored == (fetched_text(outcome) matches Some(value) && is_json(value)),
            final(self).same_settings(old(self)),
            final(self)@.dom().finite(),
    {
        proof {
            use_type_invariant(&*self);
        }
        match outcome {
            Ok(value) => {
                match JsonText::parse(value) {
                    Ok(json) => {
                        let entry = CacheEntry::new_at(
                            json.into_string(),
                            self.config.default_ttl,
                            now,
                        );
                        store_insert(&mut self.storage, key.to_owned(), entry);
                        true
                    },
                    Err(_) => false,
                }
            },
            Err(_) => false,
        }
    }

    /// Removes the entries that have outlived their time to live at the
    /// current time; see [`CacheManager::sweep_expired_at`].
    pub fn sweep_expired(&mut self) -> (removed: usize)
        ensures
            exists|now: i64| final(self)@ == without_expired(old(self)@, now),
            removed == old(self)@.len() - final(self)@.len(),
            final(self).same_settings(old(self)),
            final(self)@.dom().finite(),
    {
        let now = now_ms();
        let removed = self.sweep_expired_at(now);
        assert(self@ == without_expired(old(self)@, now));
        removed
    }

    /// Removes the entries that have outlived their time to live at time
    /// `now`, and returns their number. This is one round of the periodic
    /// sweep.
    pub fn sweep_expired_at(&mut self, now: i64) -> (removed: usize)
        ensures
            final(self)@ == without_expired(old(self)@, now),
            removed == old(self)@.len() - final(self)@.len(),
            final(self).same_settings(old(self)),
            final(self)@.dom().finite(),
    {
        let keys = store_keys(&self.storage);
        let flags = self.flag_expired(&keys, now);
        let removed = self.remove_flagged(&keys, &flags);
        proof {
            let before = old(self)@;
            let hit = Set::new(|k: Seq<char>| before.contains_key(k) && before[k].expired_at(now));
            assert forall|k: Seq<char>| before.contains_key(k) implies (flagged(
                views(keys@),
                flags@,
            ).contains(k) <==> hit.contains(k)) by {
                assert(views(keys@).to_set().contains(k));
                let j = choose|j: int| 0 <= j < views(keys@).len() && views(keys@)[j] == k;
                assert(flags@[j] == before[k].expired_at(now));
                if flagged(views(keys@), flags@).contains(k) {
                    let i2 = choose|i2: int|
                        0 <= i2 < views(keys@).len() && i2 < flags@.len() && flags@[i2] && views(
                            keys@,
                        )[i2] == k;
                    assert(flags@[i2] == before[views(keys@)[i2]].expired_at(now));
                }
            }
            assert(self@ =~= without_expired(before, now));
        }
        removed
    }

    /// For each key, whether its entry has outlived its time to live at time
    /// `now`.
    fn flag_expired(&self, keys: &Vec<String>, now: i64) -> (flags: Vec<bool>)
        requires
            views(keys@).to_set() == self@.dom(),
        ensures
            flags.len() == keys.len(),
            forall|j: int|
                0 <= j < keys.len() ==> flags@[j] == self@[views(keys@)[j]].expired_at(now),
    {
        let mut flags: Vec<bool> = Vec::new();
        let mut i: usize = 0;
        while i < keys.len()
            invariant
                i <= keys.len(),
                flags.len() == i,
                views(keys@).to_set() == self@.dom(),
                forall|j: int| 0 <= j < i ==> flags@[j] == self@[views(keys@)[j]].expired_at(now),
            decreases keys.len() - i,
        {
            assert(views(keys@).to_set().contains(views(keys@)[i as int]));
            let flag = match store_meta(&self.storage, keys[i].as_str()) {
                Some(meta) => meta.is_expired_at(now),
                None => false,
            };
            flags.push(flag);
            i += 1;
        }
        flags
    }

    /// Removes the entries of the flagged keys, and returns their number.
    fn remove_flagged(&mut self, keys: &Vec<String>, flags: &Vec<bool>) -> (removed: usize)
        requires
            keys.len() == flags.len(),
            views(keys@).no_duplicates(),
            views(keys@).to_set() == old(self)@.dom(),
        ensures
            final(self)@ == old(self)@.remove_keys(flagged(views(keys@), flags@)),
            removed == count_set(flags@),
            removed == old(self)@.len() - final(self)@.len(),
            final(self).same_settings(old(self)),
            final(self)@.dom().finite(),
    {
        proof {
            use_type_invariant(&*self);
        }
        let chosen = pick_flagged(keys, flags);
        let mut i: usize = 0;
        assert(views(chosen@).take(0).to_set() =~= Set::<Seq<char>>::empty());
        assert(self@ =~= old(self)@.remove_keys(Set::<Seq<char>>::empty()));
        while i < chosen.len()
            invariant
                i <= chosen.len(),
                old(self)@.dom().finite(),
                views(chosen@).no_duplicates(),
                views(chosen@).to_set() == flagged(views(keys@), flags@),
                views(keys@).to_set() == old(self)@.dom(),
                self@ == old(self)@.remove_keys(views(chosen@).take(i as int).to_set()),
                self@.len() == old(self)@.len() - i,
                self@.dom().finite(),
                self.same_settings(old(self)),
            decreases chosen.len() - i,
        {
            proof {
                use_type_invariant(&*self);
                let k = views(chosen@)[i as int];
                assert(views(chosen@).to_set().contains(k));
                let j = choose|j: int|
                    0 <= j < views(keys@).len() && j < flags@.len() && flags@[j] && views(keys@)[j]
                        == k;
                assert(views(keys@).to_set().contains(k));
                assert(!views(chosen@).take(i as int).to_set().contains(k)) by {
                    if views(chosen@).take(i as int).contains(k) {
                        let at = choose|at: int|
                            0 <= at < i && views(chosen@).take(i as int)[at] == k;
                        assert(views(chosen@)[at] == views(chosen@)[i as int]);
                    }
                }
                assert(self@.contains_key(k));
                assert(views(chosen@).take(i + 1) =~= views(chosen@).take(i as int).push(k));
                lemma_push_to_set(views(chosen@).take(i as int), k);
            }
            let ghost before = self@;
            store_remove(&mut self.storage, chosen[i].as_str());
            proof {
                assert(self@ =~= old(self)@.remove_keys(views(chosen@).take(i + 1).to_set()));
                assert(self@.dom() =~= before.dom().remove(views(chosen@)[i as int]));
            }
            i += 1;
        }
        assert(views(chosen@).take(chosen.len() as int) =~= views(chosen@));
        chosen.len()
    }

    /// Makes room in a full cache; see [`evicted`].
    fn evict_entries(&mut self, now: i64)
        ensures
            evicted(
                old(self)@,
                final(self)@,
                old(self).strategy(),
                eviction_batch(old(self).max_entries()),
                now,
            ),
            final(self).same_settings(old(self)),
            final(self)@.dom().finite(),
    {
        proof {
            use_type_invariant(&*self);
        }
        let keys = store_keys(&self.storage);
        let strategy = self.config.strategy;
        let flags = match strategy {
            EvictionStrategy::TimeToLive => self.flag_expired(&keys, now),
            _ => {
                let tenth = self.config.max_entries / 10;
                let batch = if tenth > 0 {
                    tenth
                } else {
                    1
                };
                let ranks = self.ranks_of(&keys, strategy);
                flag_lowest(&ranks, batch)
            },
        };
        let removed = self.remove_flagged(&keys, &flags);
        proof {
            let before = old(self)@;
            let gone_set = flagged(views(keys@), flags@);
            assert(self@.submap_of(before));
            assert(views(keys@).len() == keys.len());
            views(keys@).unique_seq_to_set();
            assert(before.len() == keys.len());
            match strategy {
                EvictionStrategy::TimeToLive => {
                    let hit = Set::new(
                        |k: Seq<char>| before.contains_key(k) && before[k].expired_at(now),
                    );
                    assert forall|k: Seq<char>| before.contains_key(k) implies (gone_set.contains(
                        k,
                    ) <==> hit.contains(k)) by {
                        assert(views(keys@).to_set().contains(k));
                        let j = choose|j: int| 0 <= j < views(keys@).len() && views(keys@)[j] == k;
                        assert(flags@[j] == before[k].expired_at(now));
                        if gone_set.contains(k) {
                            let i2 = choose|i2: int|
                                0 <= i2 < views(keys@).len() && i2 < flags@.len() && flags@[i2]
                                    && views(keys@)[i2] == k;
                            assert(flags@[i2] == before[views(keys@)[i2]].expired_at(now));
                        }
                    }
                    assert(self@ =~= without_expired(before, now));
                },
                _ => {
                    assert forall|gone: Seq<char>, kept: Seq<char>|
                        before.contains_key(gone) && !self@.contains_key(gone)
                            && self@.contains_key(kept) implies rank(before[gone], strategy)
                        <= rank(before[kept], strategy) by {
                        assert(gone_set.contains(gone));
                        let i2 = choose|i2: int|
                            0 <= i2 < views(keys@).len() && i2 < flags@.len() && flags@[i2]
                                && views(keys@)[i2] == gone;
                        assert(views(keys@).to_set().contains(kept));
                        let j = choose|j: int|
                            0 <= j < views(keys@).len() && views(keys@)[j] == kept;
                        if flags@[j] {
                            assert(gone_set.contains(kept));
                        }
                    }
                },
            }
        }
    }

    /// For each key, the number by which `strategy` orders its entry.
    fn ranks_of(&self, keys: &Vec<String>, strategy: EvictionStrategy) -> (ranks: Vec<i128>)
        requires
            views(keys@).to_set() == self@.dom(),
        ensures
            ranks.len() == keys.len(),
            forall|j: int|
                0 <= j < keys.len() ==> ranks@[j] == rank(self@[views(keys@)[j]], strategy),
    {
        let mut ranks: Vec<i128> = Vec::new();
        let mut i: usize = 0;
        while i < keys.len()
            invariant
                i <= keys.len(),
                ranks.len() == i,
                views(keys@).to_set() == self@.dom(),
                forall|j: int|
                    0 <= j < i ==> ranks@[j] == rank(self@[views(keys@)[j]], strategy),
            decreases keys.len() - i,
        {
            assert(views(keys@).to_set().contains(views(keys@)[i as int]));
            let value: i128 = match store_meta(&self.storage, keys[i].as_str()) {
                Some(meta) => match strategy {
                    EvictionStrategy::LeastRecentlyUsed => meta.last_accessed as i128,
                    EvictionStrategy::LeastFrequentlyUsed => meta.access_count as i128,
                    EvictionStrategy::FirstInFirstOut => meta.created_at as i128,
                    EvictionStrategy::TimeToLive => 0,
                },
                None => 0,
            };
            ranks.push(value);
            i += 1;
        }
        ranks
    }
}

} // verus!
