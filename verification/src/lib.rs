//! A resilient data layer for a package manager front end: a time-to-live
//! cache with tags and eviction, the decisions of a retry and fallback
//! executor, a cache-first facade over two upstream sources, and the
//! decisions of a network-aware prefetch scheduler.
//!
//! Time is an `i64` count of milliseconds since the Unix epoch and a duration
//! is a `u64` count of milliseconds. Functions that read the clock have a
//! companion whose name ends in `_at`, which takes the time as an argument
//! and has an exact contract.

pub mod clock;
pub mod codec;
pub mod error;
pub mod services;
pub mod text;
