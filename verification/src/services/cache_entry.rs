//! One entry of the cache.

use vstd::prelude::*;
use crate::clock::now_ms;
use crate::text::{clone_strings, views};

verus! {

/// A cached value with its bookkeeping. Times are milliseconds since the Unix
/// epoch, `ttl` is in milliseconds.
#[derive(Debug)]
pub struct CacheEntry<T> {
    pub data: T,
    pub created_at: i64,
    pub ttl: u64,
    pub access_count: u64,
    pub last_accessed: i64,
    pub tags: Vec<String>,
}

/// The mathematical content of a [`CacheEntry`].
pub struct EntryView<V> {
    pub data: V,
    pub created_at: i64,
    pub ttl: u64,
    pub access_count: u64,
    pub last_accessed: i64,
    pub tags: Seq<Seq<char>>,
}

impl<T: View> View for CacheEntry<T> {
    type V = EntryView<T::V>;

    open spec fn view(&self) -> EntryView<T::V> {
        EntryView {
            data: self.data@,
            created_at: self.created_at,
            ttl: self.ttl,
            access_count: self.access_count,
            last_accessed: self.last_accessed,
            tags: views(self.tags@),
        }
    }
}

/// The numbers of an entry, without its value and tags.
#[derive(Clone, Copy, Debug, PartialEq, Eq, Structural)]
pub struct EntryMeta {
    pub created_at: i64,
    pub ttl: u64,
    pub access_count: u64,
    pub last_accessed: i64,
}

impl<V> EntryView<V> {
    /// An entry is never accessed before it is created.
    pub open spec fn well_formed(self) -> bool {
        self.created_at <= self.last_accessed
    }

    /// The entry has outlived its time to live at time `now`.
    pub open spec fn expired_at(self, now: i64) -> bool {
        now > self.created_at + self.ttl
    }

    /// The entry after a read at time `now`: one more access is counted (the
    /// count stops at the largest `u64`) and the time of the last access moves
    /// forward to `now`, never backward.
    pub open spec fn touched(self, now: i64) -> EntryView<V> {
        EntryView {
            access_count: if self.access_count < u64::MAX {
                (self.access_count + 1) as u64
            } else {
                self.access_count
            },
            last_accessed: if now > self.last_accessed {
                now
            } else {
                self.last_accessed
            },
            ..self
        }
    }

    /// The whole seconds between the creation of the entry and `now`, zero
    /// if `now` is earlier.
    pub open spec fn age_at(self, now: i64) -> int {
        if now > self.created_at {
            (now - self.created_at) / 1000
        } else {
            0
        }
    }

    /// The numbers of the entry.
    pub open spec fn meta(self) -> EntryMeta {
        EntryMeta {
            created_at: self.created_at,
            ttl: self.ttl,
            access_count: self.access_count,
            last_accessed: self.last_accessed,
        }
    }

    /// Whether the entry carries one of `wanted` among its tags.
    pub open spec fn tagged_with_any(self, wanted: Seq<Seq<char>>) -> bool {
        exists|i: int| 0 <= i < self.tags.len() && wanted.contains(#[trigger] self.tags[i])
    }
}

impl EntryMeta {
    /// The entry has outlived its time to live at time `now`.
    pub open spec fn expired_at(self, now: i64) -> bool {
        now > self.created_at + self.ttl
    }

    /// The whole seconds between the creation of the entry and `now`.
    pub open spec fn age_at(self, now: i64) -> int {
        if now > self.created_at {
            (now - self.created_at) / 1000
        } else {
            0
        }
    }

    /// Whether the entry has outlived its time to live at time `now`.
    pub fn is_expired_at(&self, now: i64) -> (r: bool)
        ensures
            r == self.expired_at(now),
    {
        now as i128 > self.created_at as i128 + self.ttl as i128
    }

    /// The age of the entry at time `now`, in whole seconds.
    pub fn age(&self, now: i64) -> (secs: u64)
        ensures
            secs == self.age_at(now),
    {
        if now > self.created_at {
            ((now as i128 - self.created_at as i128) / 1000) as u64
        } else {
            0
        }
    }
}

/// A fresh entry made at time `now`.
pub open spec fn fresh_entry<V>(data: V, ttl: u64, tags: Seq<Seq<char>>, now: i64) -> EntryView<V> {
    EntryView { data, created_at: now, ttl, access_count: 0, last_accessed: now, tags }
}

impl<T: View> CacheEntry<T> {
    /// A fresh entry without tags, made at the current time.
    pub fn new(data: T, ttl: u64) -> (entry: Self)
        ensures
            entry@ == fresh_entry(data@, ttl, Seq::empty(), entry.created_at),
    {
        Self::new_at(data, ttl, now_ms())
    }

    /// A fresh entry without tags, made at time `now`.
    pub fn new_at(data: T, ttl: u64, now: i64) -> (entry: Self)
        ensures
            entry@ == fresh_entry(data@, ttl, Seq::empty(), now),
            entry@.well_formed(),
    {
        let entry = CacheEntry {
            data,
            created_at: now,
            ttl,
            access_count: 0,
            last_accessed: now,
            tags: Vec::new(),
        };
        assert(entry@.tags =~= Seq::empty());
        entry
    }

    /// The entry with its tags replaced by `tags`.
    pub fn with_tags(self, tags: Vec<String>) -> (entry: Self)
        ensures
            entry@ == (EntryView { tags: views(tags@), ..self@ }),
    {
        CacheEntry { tags, ..self }
    }

    /// Whether the entry has outlived its time to live at the current time.
    pub fn is_expired(&self) -> (r: bool)
        ensures
            exists|now: i64| r == self@.expired_at(now),
    {
        let now = now_ms();
        let r = self.is_expired_at(now);
        assert(r == self@.expired_at(now));
        r
    }

    /// Whether the entry has outlived its time to live at time `now`: whether
    /// `now` is later than the creation time plus the time to live.
    pub fn is_expired_at(&self, now: i64) -> (r: bool)
        ensures
            r == self@.expired_at(now),
    {
        now as i128 > self.created_at as i128 + self.ttl as i128
    }

    /// Records a read of the entry at the current time.
    pub fn access(&mut self)
        ensures
            exists|now: i64| final(self)@ == old(self)@.touched(now),
    {
        let now = now_ms();
        self.access_at(now);
        assert(self@ == old(self)@.touched(now));
    }

    /// Records a read of the entry at time `now`.
    pub fn access_at(&mut self, now: i64)
        ensures
            final(self)@ == old(self)@.touched(now),
            old(self)@.well_formed() ==> final(self)@.well_formed(),
    {
        if self.access_count < u64::MAX {
            self.access_count = self.access_count + 1;
        }
        if now > self.last_accessed {
            self.last_accessed = now;
        }
    }

    /// The age of the entry at the current time, in whole seconds.
    pub fn age(&self) -> (secs: u64)
        ensures
            exists|now: i64| secs == self@.age_at(now),
    {
        let now = now_ms();
        let secs = self.age_at(now);
        assert(secs == self@.age_at(now));
        secs
    }

    /// The age of the entry at time `now`, in whole seconds.
    pub fn age_at(&self, now: i64) -> (secs: u64)
        ensures
            secs == self@.age_at(now),
    {
        if now > self.created_at {
            ((now as i128 - self.created_at as i128) / 1000) as u64
        } else {
            0
        }
    }

    /// The numbers of the entry.
    pub fn meta(&self) -> (m: EntryMeta)
        ensures
            m == self@.meta(),
    {
        EntryMeta {
            created_at: self.created_at,
            ttl: self.ttl,
            access_count: self.access_count,
            last_accessed: self.last_accessed,
        }
    }

    /// A copy of the tags of the entry.
    pub fn copy_tags(&self) -> (tags: Vec<String>)
        ensures
            views(tags@) == self@.tags,
    {
        clone_strings(&self.tags)
    }
}

} // verus!
