//! The decisions of the prefetch scheduler.
//!
//! The scheduler keeps the cache warm in the background. Fetching, waiting
//! and sleeping are the caller's part; this module decides whether a unit of
//! background work may start, what it fetches, and how its outcome is
//! recorded. The number of units that run at once is bounded by the
//! configured number of concurrent requests: a unit starts only while a
//! permit is free, and holds its permit until it is finished.

use vstd::prelude::*;
use crate::error::BrewDeckError;
use crate::services::brew_client::PackageType;
use crate::services::cache_manager::{lookup, CacheManager};
use crate::services::package_service::{listing_key, BrewPackage, PackageSearchResult};
use crate::text::{lex_le, str_eq, str_le, views};

verus! {

/// The least time between two warm-ups of the popular packages of one kind,
/// in milliseconds.
pub const POPULAR_INTERVAL_MS: i64 = 600_000;

/// The time between two rounds of the background refresh, in milliseconds.
pub const BACKGROUND_REFRESH_INTERVAL_MS: u64 = 300_000;

/// The number of popular packages whose details one warm-up fetches.
pub const POPULAR_FETCH_LIMIT: usize = 10;

/// The number of dependencies whose details a related warm-up fetches.
pub const RELATED_FETCH_LIMIT: usize = 3;

/// The number of recent queries that a predictive prefetch searches.
pub const PREDICTIVE_QUERY_LIMIT: usize = 5;

/// The number of results per search whose details are fetched.
pub const PREDICTIVE_RESULT_LIMIT: usize = 2;

/// The pause after each fetch of a popular package, in milliseconds.
pub const POPULAR_DELAY_MS: u64 = 100;

/// The pause after each fetch of a dependency, in milliseconds.
pub const RELATED_DELAY_MS: u64 = 200;

/// The pause after each predictive search, in milliseconds.
pub const PREDICTIVE_DELAY_MS: u64 = 500;

/// The settings of the scheduler.
#[derive(Clone, Copy, Debug, PartialEq, Eq, Structural)]
pub struct PrefetchConfig {
    pub enabled: bool,
    pub max_concurrent_requests: usize,
    pub wifi_only: bool,
    pub respect_save_data: bool,
    pub popularity_threshold: u64,
    pub cache_warming_enabled: bool,
    pub predictive_enabled: bool,
    pub background_refresh_enabled: bool,
    pub prefetch_interval_seconds: u64,
}

impl Default for PrefetchConfig {
    fn default() -> (config: Self)
        ensures
            config == (PrefetchConfig {
                enabled: true,
                max_concurrent_requests: 3,
                wifi_only: false,
                respect_save_data: true,
                popularity_threshold: 1000,
                cache_warming_enabled: true,
                predictive_enabled: true,
                background_refresh_enabled: true,
                prefetch_interval_seconds: 300,
            }),
    {
        PrefetchConfig {
            enabled: true,
            max_concurrent_requests: 3,
            wifi_only: false,
            respect_save_data: true,
            popularity_threshold: 1000,
            cache_warming_enabled: true,
            predictive_enabled: true,
            background_refresh_enabled: true,
            prefetch_interval_seconds: 300,
        }
    }
}

/// The latest known state of the network. `rtt` is in milliseconds.
#[derive(Debug)]
pub struct NetworkConditions {
    pub connection_type: String,
    pub effective_type: String,
    pub rtt: u32,
    pub save_data: bool,
}

/// The mathematical content of [`NetworkConditions`].
pub struct NetworkView {
    pub connection_type: Seq<char>,
    pub effective_type: Seq<char>,
    pub rtt: u32,
    pub save_data: bool,
}

impl View for NetworkConditions {
    type V = NetworkView;

    open spec fn view(&self) -> NetworkView {
        NetworkView {
            connection_type: self.connection_type@,
            effective_type: self.effective_type@,
            rtt: self.rtt,
            save_data: self.save_data,
        }
    }
}

/// How much a unit of background work matters.
#[derive(Clone, Copy, Debug, PartialEq, Eq, Structural)]
pub enum PrefetchPriority {
    High,
    Medium,
    Low,
}

/// A request to prefetch packages. `created_at` is in milliseconds since the
/// Unix epoch.
#[derive(Debug)]
pub struct PrefetchRequest {
    pub id: String,
    pub package_type: PackageType,
    pub packages: Option<Vec<String>>,
    pub priority: PrefetchPriority,
    pub network_aware: bool,
    pub created_at: i64,
}

/// The running counters of the scheduler.
#[derive(Clone, Copy, Debug, PartialEq, Eq, Structural)]
pub struct PrefetchStats {
    pub total_requests: u64,
    pub successful_requests: u64,
    pub failed_requests: u64,
    pub bytes_transferred: u64,
    pub average_response_time_ms: u64,
}

/// One more, or the largest `u64` if there is no more.
pub open spec fn bumped(n: u64) -> u64 {
    if n < u64::MAX {
        (n + 1) as u64
    } else {
        n
    }
}

/// The counters after one more unit of work was recorded.
///
/// The unit counts as a request and as a success or a failure, its bytes are
/// added, and the average response time becomes the mean of the old average
/// and the new time, or the new time itself for the first request. No counter
/// goes beyond the largest `u64`.
pub open spec fn recorded(
    stats: PrefetchStats,
    success: bool,
    response_time_ms: u64,
    bytes: u64,
) -> PrefetchStats {
    let total = bumped(stats.total_requests);
    PrefetchStats {
        total_requests: total,
        successful_requests: if success {
            bumped(stats.successful_requests)
        } else {
            stats.successful_requests
        },
        failed_requests: if success {
            stats.failed_requests
        } else {
            bumped(stats.failed_requests)
        },
        bytes_transferred: if stats.bytes_transferred + bytes <= u64::MAX {
            (stats.bytes_transferred + bytes) as u64
        } else {
            u64::MAX
        },
        average_response_time_ms: if total > 1 {
            ((stats.average_response_time_ms + response_time_ms) / 2) as u64
        } else {
            response_time_ms
        },
    }
}

/// Whether a network of the given quality admits work of the given priority:
/// the two slowest tiers admit none, the third only work of high priority,
/// every other tier all work.
pub open spec fn tier_allows(effective_type: Seq<char>, priority: PrefetchPriority) -> bool {
    if effective_type == "slow-2g"@ || effective_type == "2g"@ {
        false
    } else if effective_type == "3g"@ {
        priority == PrefetchPriority::High
    } else {
        true
    }
}

/// Whether the network admits work of the given priority. An unknown network
/// admits all work.
pub open spec fn network_allows(
    config: PrefetchConfig,
    network: Option<NetworkView>,
    priority: PrefetchPriority,
) -> bool {
    match network {
        None => true,
        Some(n) => {
            &&& !(config.respect_save_data && n.save_data)
            &&& !(config.wifi_only && n.connection_type == "cellular"@)
            &&& tier_allows(n.effective_type, priority)
        },
    }
}

/// The mathematical content of a [`PrefetchService`].
pub struct PrefetchView {
    pub config: PrefetchConfig,
    pub network: Option<NetworkView>,
    pub stats: PrefetchStats,
    /// The number of units of work that hold a permit.
    pub in_flight: nat,
    /// The ranked popular packages of each kind, once they are known.
    pub popular_formulae: Option<Seq<Seq<char>>>,
    pub popular_casks: Option<Seq<Seq<char>>>,
    /// The time of the last warm-up of each kind.
    pub last_popular_formulae: Option<i64>,
    pub last_popular_casks: Option<i64>,
}

impl PrefetchView {
    /// The number of permits that are free.
    pub open spec fn free_permits(self) -> int {
        if self.config.max_concurrent_requests > self.in_flight {
            self.config.max_concurrent_requests - self.in_flight
        } else {
            0
        }
    }

    /// Whether a unit of work of the given priority may start: prefetching is
    /// enabled, the network admits it, and a permit is free.
    pub open spec fn allows(self, priority: PrefetchPriority) -> bool {
        &&& self.config.enabled
        &&& network_allows(self.config, self.network, priority)
        &&& self.free_permits() > 0
    }

    /// The ranked popular packages of a kind, once they are known.
    pub open spec fn popular(self, kind: PackageType) -> Option<Seq<Seq<char>>> {
        match kind {
            PackageType::Formula => self.popular_formulae,
            PackageType::Cask => self.popular_casks,
        }
    }

    /// The time of the last warm-up of a kind.
    pub open spec fn last_popular(self, kind: PackageType) -> Option<i64> {
        match kind {
            PackageType::Formula => self.last_popular_formulae,
            PackageType::Cask => self.last_popular_casks,
        }
    }

    /// Whether the last warm-up of a kind is too recent at time `now`.
    pub open spec fn throttled(self, kind: PackageType, now: i64) -> bool {
        self.last_popular(kind) matches Some(last) && now - last < POPULAR_INTERVAL_MS
    }

    /// The state after a unit of work took a permit.
    pub open spec fn acquired(self) -> PrefetchView {
        PrefetchView { in_flight: self.in_flight + 1, ..self }
    }

    /// The state after a unit of work gave its permit back.
    pub open spec fn released(self) -> PrefetchView {
        PrefetchView {
            in_flight: if self.in_flight > 0 {
                (self.in_flight - 1) as nat
            } else {
                0
            },
            ..self
        }
    }

    /// The state with the ranked popular packages of a kind set.
    pub open spec fn with_popular(self, kind: PackageType, names: Seq<Seq<char>>) -> PrefetchView {
        match kind {
            PackageType::Formula => PrefetchView { popular_formulae: Some(names), ..self },
            PackageType::Cask => PrefetchView { popular_casks: Some(names), ..self },
        }
    }

    /// The state with the time of the last warm-up of a kind set.
    pub open spec fn with_last_popular(self, kind: PackageType, now: i64) -> PrefetchView {
        match kind {
            PackageType::Formula => PrefetchView { last_popular_formulae: Some(now), ..self },
            PackageType::Cask => PrefetchView { last_popular_casks: Some(now), ..self },
        }
    }
}

/// A package in the ranking: its name and its installs of the trailing year.
pub type RankedView = (Seq<char>, u64);

/// Whether `a` stands before `b` in the ranking, or level with it: it has
/// more installs, or as many and a name that does not come later in the
/// order of strings.
pub open spec fn ranks_before(a: RankedView, b: RankedView) -> bool {
    a.1 > b.1 || (a.1 == b.1 && lex_le(a.0, b.0))
}

/// The place of a new entry in a ranking: behind the entries at the front
/// that stand before it or level with it.
pub open spec fn place_of(ranking: Seq<RankedView>, entry: RankedView) -> nat
    decreases ranking.len(),
{
    if ranking.len() > 0 && ranks_before(ranking[0], entry) {
        1 + place_of(ranking.drop_first(), entry)
    } else {
        0
    }
}

/// The ranking of the popular packages among `packages`: those that were
/// installed more often than `threshold` times in the trailing year, the
/// most installed first. Packages with as many installs stand in the order
/// of their names, and of two with the same name too the one that comes
/// first in `packages` stands first.
pub open spec fn ranking(packages: Seq<BrewPackage>, threshold: u64) -> Seq<RankedView>
    decreases packages.len(),
{
    if packages.len() == 0 {
        Seq::empty()
    } else {
        let front = ranking(packages.drop_last(), threshold);
        let last = packages.last();
        if last.analytics.downloads_365d > threshold {
            let entry = (last.name@, last.analytics.downloads_365d);
            front.insert(place_of(front, entry) as int, entry)
        } else {
            front
        }
    }
}

/// The names of a ranking, in its order.
pub open spec fn ranked_names(ranking: Seq<RankedView>) -> Seq<Seq<char>> {
    ranking.map_values(|e: RankedView| e.0)
}

/// The ranked list of the popular packages among `packages`: the names of
/// their [`ranking`].
pub open spec fn popular_list(packages: Seq<BrewPackage>, threshold: u64) -> Seq<Seq<char>> {
    ranked_names(ranking(packages, threshold))
}

/// The views of a ranking that is held as strings.
pub open spec fn ranking_view(entries: Seq<(String, u64)>) -> Seq<RankedView> {
    entries.map_values(|e: (String, u64)| (e.0@, e.1))
}

/// No entry of a ranking has fewer installs than one behind it.
pub open spec fn descending(ranking: Seq<RankedView>) -> bool {
    forall|i: int, j: int| 0 <= i <= j < ranking.len() ==> ranking[i].1 >= ranking[j].1
}

/// The place of a new entry is the first place whose entry does not stand
/// before it.
pub proof fn lemma_place_of(ranking: Seq<RankedView>, entry: RankedView, at: int)
    requires
        0 <= at <= ranking.len(),
        forall|i: int| 0 <= i < at ==> ranks_before(ranking[i], entry),
        at < ranking.len() ==> !ranks_before(ranking[at], entry),
    ensures
        place_of(ranking, entry) == at,
    decreases at,
{
    if at > 0 {
        let rest = ranking.drop_first();
        assert(ranks_before(ranking[0], entry));
        assert forall|i: int| 0 <= i < at - 1 implies ranks_before(rest[i], entry) by {
            assert(rest[i] == ranking[i + 1]);
        }
        if at - 1 < rest.len() {
            assert(rest[at - 1] == ranking[at]);
        }
        lemma_place_of(rest, entry, at - 1);
    }
}

/// The place of a new entry lies within the ranking or at its end, every
/// entry in front of it stands before the new one, and the entry at it does
/// not.
pub proof fn lemma_place_of_bounds(ranking: Seq<RankedView>, entry: RankedView)
    ensures
        place_of(ranking, entry) <= ranking.len(),
        forall|i: int| 0 <= i < place_of(ranking, entry) ==> ranks_before(ranking[i], entry),
        place_of(ranking, entry) < ranking.len() ==> !ranks_before(
            ranking[place_of(ranking, entry) as int],
            entry,
        ),
    decreases ranking.len(),
{
    if ranking.len() > 0 && ranks_before(ranking[0], entry) {
        let rest = ranking.drop_first();
        lemma_place_of_bounds(rest, entry);
        let at = place_of(rest, entry);
        assert forall|i: int| 0 <= i < at + 1 implies ranks_before(ranking[i], entry) by {
            if i > 0 {
                assert(rest[i - 1] == ranking[i]);
            }
        }
        if at + 1 < ranking.len() {
            assert(rest[at as int] == ranking[at as int + 1]);
        }
    }
}

/// The ranking goes by install count, highest first: no package in it has
/// fewer installs than one behind it, and every package in it has more
/// installs than the threshold.
pub proof fn lemma_ranking_descends(packages: Seq<BrewPackage>, threshold: u64)
    ensures
        descending(ranking(packages, threshold)),
        forall|i: int|
            0 <= i < ranking(packages, threshold).len() ==> (#[trigger] ranking(
                packages,
                threshold,
            )[i]).1 > threshold,
        ranking(packages, threshold).len() <= packages.len(),
    decreases packages.len(),
{
    if packages.len() > 0 {
        let front = ranking(packages.drop_last(), threshold);
        lemma_ranking_descends(packages.drop_last(), threshold);
        let last = packages.last();
        if last.analytics.downloads_365d > threshold {
            let entry = (last.name@, last.analytics.downloads_365d);
            lemma_place_of_bounds(front, entry);
            let at = place_of(front, entry) as int;
            let whole = front.insert(at, entry);
            assert forall|i: int, j: int| 0 <= i <= j < whole.len() implies whole[i].1
                >= whole[j].1 by {
                if j < at {
                    assert(whole[i] == front[i] && whole[j] == front[j]);
                } else if j == at {
                    if i < at {
                        assert(whole[i] == front[i]);
                        assert(ranks_before(front[i], entry));
                    }
                } else {
                    assert(whole[j] == front[j - 1]);
                    assert(front[at].1 >= front[j - 1].1);
                    assert(!ranks_before(front[at], entry));
                    if i < at {
                        assert(whole[i] == front[i]);
                    } else if i > at {
                        assert(whole[i] == front[i - 1]);
                    }
                }
            }
            assert forall|i: int| 0 <= i < whole.len() implies (#[trigger] whole[i]).1
                > threshold by {
                if i < at {
                    assert(whole[i] == front[i]);
                } else if i > at {
                    assert(whole[i] == front[i - 1]);
                }
            }
        }
    }
}

/// The outcome of one fetch of a unit of background work.
#[derive(Clone, Copy, Debug, PartialEq, Eq, Structural)]
pub struct ItemOutcome {
    /// Whether the fetch succeeded.
    pub success: bool,
    /// The time that the fetch took, in milliseconds.
    pub elapsed_ms: u64,
}

/// The counters after the fetches of a unit of work were recorded, one after
/// the other; see [`recorded`].
pub open spec fn recorded_all(stats: PrefetchStats, outcomes: Seq<ItemOutcome>) -> PrefetchStats
    decreases outcomes.len(),
{
    if outcomes.len() == 0 {
        stats
    } else {
        recorded(
            recorded_all(stats, outcomes.drop_last()),
            outcomes.last().success,
            outcomes.last().elapsed_ms,
            0,
        )
    }
}

/// The number of fetches that failed.
pub open spec fn failures_in(outcomes: Seq<ItemOutcome>) -> nat
    decreases outcomes.len(),
{
    if outcomes.len() == 0 {
        0
    } else {
        failures_in(outcomes.drop_last()) + if outcomes.last().success {
            0nat
        } else {
            1nat
        }
    }
}

/// The sum of two counts, or the largest `u64` if it is larger.
pub open spec fn capped(n: int) -> u64 {
    if n <= u64::MAX {
        n as u64
    } else {
        u64::MAX
    }
}

/// Every fetch of a unit of work is counted: each as a request, each failed
/// one as a failure and each other one as a success, whether or not others of
/// the unit failed. No counter goes beyond the largest `u64`.
pub proof fn lemma_every_failure_is_counted(stats: PrefetchStats, outcomes: Seq<ItemOutcome>)
    ensures
        recorded_all(stats, outcomes).total_requests == capped(
            stats.total_requests + outcomes.len(),
        ),
        recorded_all(stats, outcomes).failed_requests == capped(
            stats.failed_requests + failures_in(outcomes),
        ),
        recorded_all(stats, outcomes).successful_requests == capped(
            stats.successful_requests + outcomes.len() - failures_in(outcomes),
        ),
        failures_in(outcomes) <= outcomes.len(),
        recorded_all(stats, outcomes).bytes_transferred == stats.bytes_transferred,
    decreases outcomes.len(),
{
    if outcomes.len() > 0 {
        lemma_every_failure_is_counted(stats, outcomes.drop_last());
    }
}

/// The first `limit` elements, or all if there are fewer.
pub open spec fn first_of<A>(items: Seq<A>, limit: int) -> Seq<A> {
    if limit < items.len() {
        items.take(limit)
    } else {
        items
    }
}

/// The names of a sequence of packages.
pub open spec fn names_of(packages: Seq<BrewPackage>) -> Seq<Seq<char>> {
    packages.map_values(|p: BrewPackage| p.name@)
}

/// The searches of a predictive prefetch: each of the first
/// [`PREDICTIVE_QUERY_LIMIT`] queries, for formulae and then for casks.
pub open spec fn predictive_searches(queries: Seq<Seq<char>>) -> Seq<(Seq<char>, PackageType)> {
    Seq::new(
        2 * first_of(queries, PREDICTIVE_QUERY_LIMIT as int).len(),
        |i: int|
            (
                queries[i / 2],
                if i % 2 == 0 {
                    PackageType::Formula
                } else {
                    PackageType::Cask
                },
            ),
    )
}

/// The views of a list of searches.
pub open spec fn search_views(searches: Seq<(String, PackageType)>) -> Seq<
    (Seq<char>, PackageType),
> {
    searches.map_values(|s: (String, PackageType)| (s.0@, s.1))
}

/// What a popular warm-up does next.
#[derive(Debug)]
pub enum PopularStep {
    /// Nothing: the warm-up is not allowed now, or ran too recently.
    Skip,
    /// The unit has started and the popular packages are not known yet: get
    /// the listing of the kind and hand it to
    /// [`PrefetchService::rank_popular`].
    NeedPackages,
    /// The unit has started: fetch the details of these packages, with a
    /// pause of [`POPULAR_DELAY_MS`] after each.
    Fetch(Vec<String>),
}

/// The first `limit` strings, or all if there are fewer.
pub fn first_strings(items: &Vec<String>, limit: usize) -> (out: Vec<String>)
    ensures
        views(out@) == first_of(views(items@), limit as int),
{
    let mut out: Vec<String> = Vec::new();
    let mut i: usize = 0;
    while i < items.len() && i < limit
        invariant
            i <= items.len(),
            i <= limit,
            out.len() == i,
            views(out@) == views(items@).take(i as int),
        decreases items.len() - i,
    {
        let item = items[i].clone();
        let ghost before = out@;
        out.push(item);
        assert(views(out@) =~= views(items@).take(i + 1)) by {
            assert forall|j: int| 0 <= j < i + 1 implies views(out@)[j] == views(items@).take(
                i + 1,
            )[j] by {
                if j < i {
                    assert(out@[j] == before[j]);
                    assert(views(before)[j] == views(items@).take(i as int)[j]);
                }
            }
        }
        i += 1;
    }
    assert(views(items@).take(items.len() as int) =~= views(items@));
    out
}

/// The names of the first `limit` packages, or of all if there are fewer.
pub fn first_names(packages: &Vec<BrewPackage>, limit: usize) -> (out: Vec<String>)
    ensures
        views(out@) == first_of(names_of(packages@), limit as int),
{
    let mut out: Vec<String> = Vec::new();
    let mut i: usize = 0;
    while i < packages.len() && i < limit
        invariant
            i <= packages.len(),
            i <= limit,
            out.len() == i,
            views(out@) == names_of(packages@).take(i as int),
        decreases packages.len() - i,
    {
        let item = packages[i].name.clone();
        let ghost before = out@;
        out.push(item);
        assert(views(out@) =~= names_of(packages@).take(i + 1)) by {
            assert forall|j: int| 0 <= j < i + 1 implies views(out@)[j] == names_of(
                packages@,
            ).take(i + 1)[j] by {
                if j < i {
                    assert(out@[j] == before[j]);
                    assert(views(before)[j] == names_of(packages@).take(i as int)[j]);
                }
            }
        }
        i += 1;
    }
    assert(names_of(packages@).take(packages.len() as int) =~= names_of(packages@));
    out
}

/// The ranked list of the popular packages among `packages`: the names of
/// those that were installed more often than `threshold` times in the
/// trailing year, the most installed first; see [`ranking`].
pub fn popular_names(packages: &Vec<BrewPackage>, threshold: u64) -> (names: Vec<String>)
    ensures
        views(names@) == popular_list(packages@, threshold),
{
    let mut ranked: Vec<(String, u64)> = Vec::new();
    let mut i: usize = 0;
    proof {
        assert(packages@.take(0) =~= Seq::<BrewPackage>::empty());
        assert(ranking_view(ranked@) =~= Seq::<RankedView>::empty());
    }
    while i < packages.len()
        invariant
            i <= packages.len(),
            ranking_view(ranked@) == ranking(packages@.take(i as int), threshold),
        decreases packages.len() - i,
    {
        proof {
            assert(packages@.take(i + 1).drop_last() =~= packages@.take(i as int));
            assert(packages@.take(i + 1).last() == packages@[i as int]);
        }
        let installs = packages[i].analytics.downloads_365d;
        if installs > threshold {
            let name = packages[i].name.clone();
            let ghost entry = (name@, installs);
            let ghost before = ranking_view(ranked@);
            let mut at: usize = 0;
            while at < ranked.len() && (ranked[at].1 > installs || (ranked[at].1 == installs
                && str_le(ranked[at].0.as_str(), name.as_str())))
                invariant
                    at <= ranked.len(),
                    entry == (name@, installs),
                    before == ranking_view(ranked@),
                    forall|k: int| 0 <= k < at ==> ranks_before(before[k], entry),
                decreases ranked.len() - at,
            {
                at += 1;
            }
            proof {
                lemma_place_of(before, entry, at as int);
            }
            ranked.insert(at, (name, installs));
            assert(ranking_view(ranked@) =~= before.insert(at as int, entry));
        }
        i += 1;
    }
    proof {
        assert(packages@.take(packages.len() as int) =~= packages@);
    }
    let mut names: Vec<String> = Vec::new();
    let mut k: usize = 0;
    while k < ranked.len()
        invariant
            k <= ranked.len(),
            names.len() == k,
            forall|j: int| 0 <= j < k ==> names@[j]@ == ranked@[j].0@,
        decreases ranked.len() - k,
    {
        names.push(ranked[k].0.clone());
        k += 1;
    }
    assert(views(names@) =~= ranked_names(ranking_view(ranked@)));
    names
}

/// The dependencies whose details a related warm-up fetches: the first
/// [`RELATED_FETCH_LIMIT`] that the package declares.
pub fn related_targets(package: &BrewPackage) -> (targets: Vec<String>)
    ensures
        views(targets@) == first_of(views(package.dependencies@), RELATED_FETCH_LIMIT as int),
{
    first_strings(&package.dependencies, RELATED_FETCH_LIMIT)
}

/// The packages whose details are fetched after a predictive search: the
/// first [`PREDICTIVE_RESULT_LIMIT`] results.
pub fn predictive_targets(result: &PackageSearchResult) -> (targets: Vec<String>)
    ensures
        views(targets@) == first_of(names_of(result.packages@), PREDICTIVE_RESULT_LIMIT as int),
{
    first_names(&result.packages, PREDICTIVE_RESULT_LIMIT)
}

/// The searches of a predictive prefetch over the recent queries of a user;
/// a pause of [`PREDICTIVE_DELAY_MS`] follows each.
pub fn predictive_plan(queries: &Vec<String>) -> (searches: Vec<(String, PackageType)>)
    ensures
        search_views(searches@) == predictive_searches(views(queries@)),
{
    let mut searches: Vec<(String, PackageType)> = Vec::new();
    let mut i: usize = 0;
    while i < queries.len() && i < PREDICTIVE_QUERY_LIMIT
        invariant
            i <= queries.len(),
            i <= PREDICTIVE_QUERY_LIMIT,
            searches.len() == 2 * i,
            forall|j: int|
                0 <= j < 2 * i ==> (#[trigger] searches@[j]).0@ == queries@[j / 2]@ && searches@[j].1
                    == if j % 2 == 0 {
                    PackageType::Formula
                } else {
                    PackageType::Cask
                },
        decreases queries.len() - i,
    {
        searches.push((queries[i].clone(), PackageType::Formula));
        searches.push((queries[i].clone(), PackageType::Cask));
        i += 1;
    }
    proof {
        let wanted = predictive_searches(views(queries@));
        assert(first_of(views(queries@), PREDICTIVE_QUERY_LIMIT as int).len() == i);
        assert(search_views(searches@).len() == wanted.len());
        assert forall|j: int| 0 <= j < wanted.len() implies search_views(searches@)[j]
            == wanted[j] by {
            assert(searches@[j].0@ == queries@[j / 2]@);
        }
        assert(search_views(searches@) =~= wanted);
    }
    searches
}

/// The state of the prefetch scheduler.
pub struct PrefetchService {
    config: PrefetchConfig,
    network: Option<NetworkConditions>,
    stats: PrefetchStats,
    in_flight: usize,
    popular_formulae: Option<Vec<String>>,
    popular_casks: Option<Vec<String>>,
    last_popular_formulae: Option<i64>,
    last_popular_casks: Option<i64>,
}

/// The views of an optional list of names.
pub open spec fn names_view(names: Option<Vec<String>>) -> Option<Seq<Seq<char>>> {
    match names {
        Some(list) => Some(views(list@)),
        None => None,
    }
}

/// The view of an optional state of the network.
pub open spec fn network_view(network: Option<NetworkConditions>) -> Option<NetworkView> {
    match network {
        Some(n) => Some(n@),
        None => None,
    }
}

impl View for PrefetchService {
    type V = PrefetchView;

    closed spec fn view(&self) -> PrefetchView {
        PrefetchView {
            config: self.config,
            network: network_view(self.network),
            stats: self.stats,
            in_flight: self.in_flight as nat,
            popular_formulae: names_view(self.popular_formulae),
            popular_casks: names_view(self.popular_casks),
            last_popular_formulae: self.last_popular_formulae,
            last_popular_casks: self.last_popular_casks,
        }
    }
}

impl PrefetchService {
    /// A scheduler with the default settings, no knowledge of the network,
    /// all counters at zero and no unit of work running.
    pub fn new() -> (service: Self)
        ensures
            service@ == (PrefetchView {
                config: (PrefetchConfig {
                    enabled: true,
                    max_concurrent_requests: 3,
                    wifi_only: false,
                    respect_save_data: true,
                    popularity_threshold: 1000,
                    cache_warming_enabled: true,
                    predictive_enabled: true,
                    background_refresh_enabled: true,
                    prefetch_interval_seconds: 300,
                }),
                network: None,
                stats: (PrefetchStats {
                    total_requests: 0,
                    successful_requests: 0,
                    failed_requests: 0,
                    bytes_transferred: 0,
                    average_response_time_ms: 0,
                }),
                in_flight: 0,
                popular_formulae: None,
                popular_casks: None,
                last_popular_formulae: None,
                last_popular_casks: None,
            }),
    {
        PrefetchService {
            config: PrefetchConfig::default(),
            network: None,
            stats: PrefetchStats {
                total_requests: 0,
                successful_requests: 0,
                failed_requests: 0,
                bytes_transferred: 0,
                average_response_time_ms: 0,
            },
            in_flight: 0,
            popular_formulae: None,
            popular_casks: None,
            last_popular_formulae: None,
            last_popular_casks: None,
        }
    }

    /// Replaces the settings as a whole. The units of work that run keep
    /// their permits.
    pub fn update_config(&mut self, new_config: PrefetchConfig) -> (r: Result<(), BrewDeckError>)
        ensures
            r is Ok,
            final(self)@ == (PrefetchView { config: new_config, ..old(self)@ }),
    {
        self.config = new_config;
        Ok(())
    }

    /// Replaces what is known of the network as a whole.
    pub fn update_network_conditions(&mut self, conditions: NetworkConditions)
        ensures
            final(self)@ == (PrefetchView { network: Some(conditions@), ..old(self)@ }),
    {
        self.network = Some(conditions);
    }

    /// The settings.
    pub fn config(&self) -> (config: PrefetchConfig)
        ensures
            config == self@.config,
    {
        self.config
    }

    /// The running counters.
    pub fn get_stats(&self) -> (stats: PrefetchStats)
        ensures
            stats == self@.stats,
    {
        self.stats
    }

    /// The number of units of work that hold a permit.
    pub fn in_flight(&self) -> (n: usize)
        ensures
            n == self@.in_flight,
    {
        self.in_flight
    }

    /// Whether a unit of work of the given priority may start now.
    ///
    /// It may not while prefetching is disabled; nor while the network saves
    /// data and the settings respect that; nor on a cellular connection when
    /// the settings ask for wifi; nor on the two slowest kinds of network; on
    /// the third slowest only work of high priority may; and never while no
    /// permit is free.
    pub fn should_allow_prefetch(&self, priority: &PrefetchPriority) -> (allowed: bool)
        ensures
            allowed == self@.allows(*priority),
    {
        if !self.config.enabled {
            return false;
        }
        match &self.network {
            Some(network) => {
                if self.config.respect_save_data && network.save_data {
                    return false;
                }
                if self.config.wifi_only && str_eq(network.connection_type.as_str(), "cellular") {
                    return false;
                }
                let tier = network.effective_type.as_str();
                if str_eq(tier, "slow-2g") || str_eq(tier, "2g") {
                    return false;
                }
                if str_eq(tier, "3g") {
                    match priority {
                        PrefetchPriority::High => {},
                        _ => {
                            return false;
                        },
                    }
                }
            },
            None => {},
        }
        self.config.max_concurrent_requests > self.in_flight
    }

    /// Takes a permit if one is free, and says whether it did.
    pub fn acquire(&mut self) -> (taken: bool)
        ensures
            taken == (old(self)@.free_permits() > 0),
            final(self)@ == if taken {
                old(self)@.acquired()
            } else {
                old(self)@
            },
            taken ==> final(self)@.in_flight <= final(self)@.config.max_concurrent_requests,
    {
        if self.config.max_concurrent_requests > self.in_flight {
            self.in_flight = self.in_flight + 1;
            true
        } else {
            false
        }
    }

    /// Gives a permit back.
    pub fn release(&mut self)
        ensures
            final(self)@ == old(self)@.released(),
    {
        if self.in_flight > 0 {
            self.in_flight = self.in_flight - 1;
        }
    }

    /// Records the outcome of one unit of work; see [`recorded`].
    pub fn update_stats(&mut self, success: bool, response_time_ms: u64, bytes_transferred: u64)
        ensures
            final(self)@ == (PrefetchView {
                stats: recorded(old(self)@.stats, success, response_time_ms, bytes_transferred),
                ..old(self)@
            }),
    {
        let old_stats = self.stats;
        let total = Self::bump(old_stats.total_requests);
        let average = if total > 1 {
            ((old_stats.average_response_time_ms as u128 + response_time_ms as u128) / 2) as u64
        } else {
            response_time_ms
        };
        let bytes = if bytes_transferred <= u64::MAX - old_stats.bytes_transferred {
            old_stats.bytes_transferred + bytes_transferred
        } else {
            u64::MAX
        };
        self.stats = PrefetchStats {
            total_requests: total,
            successful_requests: if success {
                Self::bump(old_stats.successful_requests)
            } else {
                old_stats.successful_requests
            },
            failed_requests: if success {
                old_stats.failed_requests
            } else {
                Self::bump(old_stats.failed_requests)
            },
            bytes_transferred: bytes,
            average_response_time_ms: average,
        };
    }

    fn bump(n: u64) -> (r: u64)
        ensures
            r == bumped(n),
    {
        if n < u64::MAX {
            n + 1
        } else {
            n
        }
    }

    /// Starts a warm-up of the popular packages of a kind at time `now`, if
    /// it may start.
    ///
    /// The warm-up is skipped, and nothing changes, unless work of medium
    /// priority is allowed and the last warm-up of the kind lies at least
    /// [`POPULAR_INTERVAL_MS`] back. Otherwise the unit takes a permit, and
    /// either asks for the listing of the kind or, if the popular packages are
    /// known, names the first [`POPULAR_FETCH_LIMIT`] of them.
    pub fn begin_popular(&mut self, kind: PackageType, now: i64) -> (step: PopularStep)
        ensures
            if !old(self)@.allows(PrefetchPriority::Medium) || old(self)@.throttled(kind, now) {
                &&& step is Skip
                &&& final(self)@ == old(self)@
            } else {
                &&& final(self)@ == old(self)@.acquired()
                &&& final(self)@.in_flight <= final(self)@.config.max_concurrent_requests
                &&& match old(self)@.popular(kind) {
                    None => step is NeedPackages,
                    Some(names) => step matches PopularStep::Fetch(targets) && views(targets@)
                        == first_of(names, POPULAR_FETCH_LIMIT as int),
                }
            },
    {
        if !self.should_allow_prefetch(&PrefetchPriority::Medium) {
            return PopularStep::Skip;
        }
        let last = match kind {
            PackageType::Formula => self.last_popular_formulae,
            PackageType::Cask => self.last_popular_casks,
        };
        match last {
            Some(at) => {
                if (now as i128) - (at as i128) < POPULAR_INTERVAL_MS as i128 {
                    return PopularStep::Skip;
                }
            },
            None => {},
        }
        self.in_flight = self.in_flight + 1;
        let known = match kind {
            PackageType::Formula => &self.popular_formulae,
            PackageType::Cask => &self.popular_casks,
        };
        match known {
            Some(names) => PopularStep::Fetch(first_strings(names, POPULAR_FETCH_LIMIT)),
            None => PopularStep::NeedPackages,
        }
    }

    /// Ranks the popular packages of a kind out of its listing, remembers
    /// them, and names the first [`POPULAR_FETCH_LIMIT`] of them as the
    /// packages whose details the warm-up fetches.
    pub fn rank_popular(&mut self, kind: PackageType, packages: &Vec<BrewPackage>) -> (targets: Vec<
        String,
    >)
        ensures
            final(self)@ == old(self)@.with_popular(
                kind,
                popular_list(packages@, old(self)@.config.popularity_threshold),
            ),
            views(targets@) == first_of(
                popular_list(packages@, old(self)@.config.popularity_threshold),
                POPULAR_FETCH_LIMIT as int,
            ),
    {
        let names = popular_names(packages, self.config.popularity_threshold);
        let targets = first_strings(&names, POPULAR_FETCH_LIMIT);
        match kind {
            PackageType::Formula => {
                self.popular_formulae = Some(names);
            },
            PackageType::Cask => {
                self.popular_casks = Some(names);
            },
        }
        targets
    }

    /// Records the fetches of a unit of work, one after the other: each
    /// counts as a request and as a success or a failure of its own; see
    /// [`recorded_all`] and [`lemma_every_failure_is_counted`].
    pub fn record_items(&mut self, outcomes: &Vec<ItemOutcome>)
        ensures
            final(self)@ == (PrefetchView {
                stats: recorded_all(old(self)@.stats, outcomes@),
                ..old(self)@
            }),
    {
        let mut i: usize = 0;
        assert(outcomes@.take(0) =~= Seq::<ItemOutcome>::empty());
        while i < outcomes.len()
            invariant
                i <= outcomes.len(),
                self@ == (PrefetchView {
                    stats: recorded_all(old(self)@.stats, outcomes@.take(i as int)),
                    ..old(self)@
                }),
            decreases outcomes.len() - i,
        {
            proof {
                assert(outcomes@.take(i + 1).drop_last() =~= outcomes@.take(i as int));
                assert(outcomes@.take(i + 1).last() == outcomes@[i as int]);
            }
            self.update_stats(outcomes[i].success, outcomes[i].elapsed_ms, 0);
            i += 1;
        }
        assert(outcomes@.take(outcomes.len() as int) =~= outcomes@);
    }

    /// Ends a warm-up of the popular packages of a kind at time `now`.
    ///
    /// `outcomes` holds the outcome of every fetch of the unit: of the
    /// listing, if it was fetched, and of the details of each package. Each
    /// is recorded by itself, so that a failed fetch counts as a failure
    /// whatever became of the others. The time is remembered as that of the
    /// last warm-up of the kind, and the permit is given back.
    pub fn finish_popular(&mut self, kind: PackageType, outcomes: &Vec<ItemOutcome>, now: i64)
        ensures
            final(self)@ == (PrefetchView {
                stats: recorded_all(old(self)@.stats, outcomes@),
                ..old(self)@.with_last_popular(kind, now).released()
            }),
    {
        self.record_items(outcomes);
        match kind {
            PackageType::Formula => {
                self.last_popular_formulae = Some(now);
            },
            PackageType::Cask => {
                self.last_popular_casks = Some(now);
            },
        }
        self.release();
    }

    /// Starts a warm-up of the dependencies of a package, if work of low
    /// priority is allowed: the unit takes a permit. Otherwise nothing
    /// changes.
    pub fn begin_related(&mut self) -> (started: bool)
        ensures
            started == old(self)@.allows(PrefetchPriority::Low),
            final(self)@ == if started {
                old(self)@.acquired()
            } else {
                old(self)@
            },
            started ==> final(self)@.in_flight <= final(self)@.config.max_concurrent_requests,
    {
        if !self.should_allow_prefetch(&PrefetchPriority::Low) {
            return false;
        }
        self.in_flight = self.in_flight + 1;
        true
    }

    /// Ends a warm-up of the dependencies of a package.
    ///
    /// `outcomes` holds the outcome of every fetch of the unit: of the
    /// details of the package itself and of each of its dependencies. Each is
    /// recorded by itself, so that a failed fetch counts as a failure
    /// whatever became of the others. The permit is given back.
    pub fn finish_related(&mut self, outcomes: &Vec<ItemOutcome>)
        ensures
            final(self)@ == (PrefetchView {
                stats: recorded_all(old(self)@.stats, outcomes@),
                ..old(self)@.released()
            }),
    {
        self.record_items(outcomes);
        self.release();
    }

    /// Whether a round of the background refresh runs now: work of low
    /// priority is allowed and the refresh is switched on.
    pub fn background_refresh_due(&self) -> (due: bool)
        ensures
            due == (self@.allows(PrefetchPriority::Low) && self@.config.background_refresh_enabled),
    {
        self.should_allow_prefetch(&PrefetchPriority::Low)
            && self.config.background_refresh_enabled
    }

    /// Whether the background refresh fetches the listing of a kind again at
    /// time `now`: whether the cache holds the listing. The look into the
    /// cache is a read like any other.
    pub fn refresh_wanted_at(cache: &mut CacheManager, kind: PackageType, now: i64) -> (wanted:
        bool)
        ensures
            wanted == lookup(old(cache)@, listing_key_of(kind), now).0 is Some,
            final(cache)@ == lookup(old(cache)@, listing_key_of(kind), now).1,
            final(cache).same_settings(old(cache)),
    {
        let key = listing_key(kind);
        match cache.get_at(key.as_str(), now) {
            Some(_) => true,
            None => false,
        }
    }

    /// Whether a predictive prefetch runs now: work of low priority is
    /// allowed and the prediction is switched on.
    pub fn predictive_due(&self) -> (due: bool)
        ensures
            due == (self@.allows(PrefetchPriority::Low) && self@.config.predictive_enabled),
    {
        self.should_allow_prefetch(&PrefetchPriority::Low) && self.config.predictive_enabled
    }
}

/// The key under which the listing of a kind is cached.
pub open spec fn listing_key_of(kind: PackageType) -> Seq<char> {
    crate::services::package_service::listing_key_text(kind)
}

/// On the third slowest kind of network, with prefetching enabled, a free
/// permit and nothing else in the way, work of high priority may start and
/// work of medium or low priority may not.
pub proof fn lemma_slow_network_admits_high_only(state: PrefetchView)
    requires
        state.config.enabled,
        state.free_permits() > 0,
        state.network matches Some(n) && n.effective_type == "3g"@ && !(
        state.config.respect_save_data && n.save_data) && !(state.config.wifi_only
            && n.connection_type == "cellular"@),
    ensures
        state.allows(PrefetchPriority::High),
        !state.allows(PrefetchPriority::Medium),
        !state.allows(PrefetchPriority::Low),
{
    reveal_strlit("3g");
    reveal_strlit("2g");
    reveal_strlit("slow-2g");
    assert("3g"@.len() == 2);
    assert("slow-2g"@.len() == 7);
    assert("3g"@[0] == '3');
    assert("2g"@[0] == '2');
}

/// A unit of work never starts beyond the configured number of concurrent
/// requests: where work is allowed, taking a permit leaves at most that many
/// units in flight.
pub proof fn lemma_permits_bound_work(state: PrefetchView, priority: PrefetchPriority)
    requires
        state.allows(priority),
    ensures
        state.acquired().in_flight <= state.config.max_concurrent_requests,
        state.acquired().released() == state,
{
}

} // verus!
