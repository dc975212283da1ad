use brewdeck::services::brew_client::PackageType;
use brewdeck::services::cache_manager::{CacheConfig, CacheManager};
use brewdeck::services::package_service::{
    BrewPackage, PackageAnalytics, PackageSearchResult,
};
use brewdeck::services::prefetch_service::{
    first_names, first_strings, popular_names, predictive_plan, predictive_targets, ItemOutcome,
    related_targets, NetworkConditions, PopularStep, PrefetchConfig, PrefetchPriority,
    PrefetchRequest, PrefetchService, PrefetchStats,
};

fn network(effective: &str, connection: &str, save_data: bool) -> NetworkConditions {
    NetworkConditions {
        connection_type: connection.to_string(),
        effective_type: effective.to_string(),
        rtt: 50,
        save_data,
    }
}

fn package(name: &str, downloads: u64, deps: &[&str]) -> BrewPackage {
    BrewPackage {
        name: name.to_string(),
        version: "1".to_string(),
        description: String::new(),
        installed: false,
        outdated: false,
        homepage: String::new(),
        dependencies: deps.iter().map(|s| s.to_string()).collect(),
        conflicts: Vec::new(),
        caveats: String::new(),
        analytics: PackageAnalytics { downloads_365d: downloads },
        category: None,
        warnings: Vec::new(),
        install_size: None,
        last_updated: None,
        package_type: PackageType::Formula,
    }
}

fn strings(items: &[&str]) -> Vec<String> {
    items.iter().map(|s| s.to_string()).collect()
}

#[test]
fn default_prefetch_config() {
    let c = PrefetchConfig::default();
    assert!(c.enabled);
    assert_eq!(c.max_concurrent_requests, 3);
    assert!(!c.wifi_only);
    assert!(c.respect_save_data);
    assert_eq!(c.popularity_threshold, 1000);
    assert!(c.cache_warming_enabled && c.predictive_enabled && c.background_refresh_enabled);
    assert_eq!(c.prefetch_interval_seconds, 300);
    assert_eq!(PrefetchService::new().config(), c);
}

#[test]
fn third_tier_admits_only_high_priority() {
    let mut s = PrefetchService::new();
    s.update_network_conditions(network("3g", "wifi", false));
    assert!(s.should_allow_prefetch(&PrefetchPriority::High));
    assert!(!s.should_allow_prefetch(&PrefetchPriority::Medium));
    assert!(!s.should_allow_prefetch(&PrefetchPriority::Low));
}

#[test]
fn slowest_tiers_admit_nothing() {
    for tier in ["slow-2g", "2g"] {
        let mut s = PrefetchService::new();
        s.update_network_conditions(network(tier, "wifi", false));
        assert!(!s.should_allow_prefetch(&PrefetchPriority::High));
        assert!(!s.should_allow_prefetch(&PrefetchPriority::Low));
    }
}

#[test]
fn fast_or_unknown_networks_admit_everything() {
    let mut s = PrefetchService::new();
    assert!(s.should_allow_prefetch(&PrefetchPriority::Low));
    for tier in ["4g", "5g", "", "3G"] {
        s.update_network_conditions(network(tier, "cellular", false));
        assert!(s.should_allow_prefetch(&PrefetchPriority::Low), "tier {tier:?}");
    }
}

#[test]
fn disabled_scheduler_admits_nothing() {
    let mut s = PrefetchService::new();
    let config = PrefetchConfig { enabled: false, ..PrefetchConfig::default() };
    s.update_config(config).unwrap();
    assert!(!s.should_allow_prefetch(&PrefetchPriority::High));
    assert_eq!(s.config(), config);
}

#[test]
fn data_saver_is_respected_when_configured() {
    let mut s = PrefetchService::new();
    s.update_network_conditions(network("4g", "wifi", true));
    assert!(!s.should_allow_prefetch(&PrefetchPriority::High));
    s.update_config(PrefetchConfig { respect_save_data: false, ..PrefetchConfig::default() })
        .unwrap();
    assert!(s.should_allow_prefetch(&PrefetchPriority::High));
}

#[test]
fn wifi_only_denies_cellular() {
    let mut s = PrefetchService::new();
    s.update_config(PrefetchConfig { wifi_only: true, ..PrefetchConfig::default() }).unwrap();
    s.update_network_conditions(network("4g", "cellular", false));
    assert!(!s.should_allow_prefetch(&PrefetchPriority::High));
    s.update_network_conditions(network("4g", "wifi", false));
    assert!(s.should_allow_prefetch(&PrefetchPriority::High));
}

#[test]
fn permits_bound_the_units_in_flight() {
    let mut s = PrefetchService::new();
    assert!(s.acquire());
    assert!(s.acquire());
    assert!(s.should_allow_prefetch(&PrefetchPriority::High));
    assert!(s.begin_related());
    assert_eq!(s.in_flight(), 3);
    assert!(!s.should_allow_prefetch(&PrefetchPriority::High));
    assert!(!s.acquire());
    assert!(!s.begin_related());
    assert_eq!(s.in_flight(), 3);
    s.release();
    assert_eq!(s.in_flight(), 2);
    assert!(s.should_allow_prefetch(&PrefetchPriority::High));
    s.release();
    s.release();
    s.release();
    assert_eq!(s.in_flight(), 0);
}

#[test]
fn shrinking_the_limit_keeps_running_units() {
    let mut s = PrefetchService::new();
    assert!(s.acquire() && s.acquire() && s.acquire());
    s.update_config(PrefetchConfig { max_concurrent_requests: 1, ..PrefetchConfig::default() })
        .unwrap();
    assert_eq!(s.in_flight(), 3);
    assert!(!s.acquire());
    s.release();
    s.release();
    assert!(!s.acquire());
    s.release();
    assert!(s.acquire());
}

#[test]
fn stats_record_every_outcome() {
    let mut s = PrefetchService::new();
    s.update_stats(true, 100, 10);
    assert_eq!(
        s.get_stats(),
        PrefetchStats {
            total_requests: 1,
            successful_requests: 1,
            failed_requests: 0,
            bytes_transferred: 10,
            average_response_time_ms: 100,
        }
    );
    s.update_stats(false, 301, 5);
    assert_eq!(
        s.get_stats(),
        PrefetchStats {
            total_requests: 2,
            successful_requests: 1,
            failed_requests: 1,
            bytes_transferred: 15,
            average_response_time_ms: 200,
        }
    );
    s.update_stats(true, u64::MAX, u64::MAX);
    let stats = s.get_stats();
    assert_eq!(stats.bytes_transferred, u64::MAX);
    assert_eq!(stats.average_response_time_ms, (200u128 + u64::MAX as u128) as u64 / 2 + (1 << 63));
    assert_eq!(stats.total_requests, 3);
}

#[test]
fn popular_names_are_filtered_and_ranked() {
    let packages = vec![
        package("wget", 5000, &[]),
        package("rare", 1000, &[]),
        package("curl", 1001, &[]),
        package("none", 0, &[]),
        package("Zsh", 9000, &[]),
        package("curl", 2000, &[]),
    ];
    assert_eq!(popular_names(&packages, 1000), strings(&["Zsh", "wget", "curl", "curl"]));
    assert!(popular_names(&packages, 9000).is_empty());
    assert_eq!(
        popular_names(&packages, 0),
        strings(&["Zsh", "wget", "curl", "curl", "rare"])
    );
}

#[test]
fn popular_names_go_by_installs_not_by_name() {
    let packages = vec![package("a", 5000, &[]), package("b", 900, &[]), package("c", 20000, &[])];
    assert_eq!(popular_names(&packages, 1000), strings(&["c", "a"]));
    assert_eq!(popular_names(&packages, 899), strings(&["c", "a", "b"]));
    assert!(popular_names(&Vec::new(), 0).is_empty());
}

#[test]
fn popular_names_with_as_many_installs_go_by_name() {
    let packages = vec![
        package("wget", 7, &[]),
        package("curl", 7, &[]),
        package("zsh", 8, &[]),
        package("Curl", 7, &[]),
        package("curl", 7, &[]),
        package("a", 6, &[]),
    ];
    assert_eq!(
        popular_names(&packages, 0),
        strings(&["zsh", "Curl", "curl", "curl", "wget", "a"])
    );
}

fn outcome(success: bool, elapsed_ms: u64) -> ItemOutcome {
    ItemOutcome { success, elapsed_ms }
}

#[test]
fn popular_warm_up_runs_at_most_every_ten_minutes() {
    let mut s = PrefetchService::new();
    let packages: Vec<BrewPackage> =
        (0..15).map(|i| package(&format!("p{i:02}"), 2000 + i, &[])).collect();
    assert!(matches!(s.begin_popular(PackageType::Formula, 0), PopularStep::NeedPackages));
    assert_eq!(s.in_flight(), 1);
    let targets = s.rank_popular(PackageType::Formula, &packages);
    assert_eq!(targets.len(), 10);
    assert_eq!(targets[0], "p14");
    assert_eq!(targets[9], "p05");
    s.finish_popular(PackageType::Formula, &vec![outcome(true, 40)], 1_000);
    assert_eq!(s.in_flight(), 0);
    assert_eq!(s.get_stats().total_requests, 1);
    assert!(matches!(s.begin_popular(PackageType::Formula, 600_999), PopularStep::Skip));
    assert_eq!(s.in_flight(), 0);
    match s.begin_popular(PackageType::Formula, 601_000) {
        PopularStep::Fetch(names) => assert_eq!(names, targets),
        _ => panic!("the list is known and the interval has passed"),
    }
    assert_eq!(s.in_flight(), 1);
    // The other kind has its own list and its own interval.
    assert!(matches!(s.begin_popular(PackageType::Cask, 601_000), PopularStep::NeedPackages));
    assert!(s.rank_popular(PackageType::Cask, &Vec::new()).is_empty());
    s.finish_popular(PackageType::Cask, &vec![outcome(false, 1)], 601_000);
    assert_eq!(s.get_stats().failed_requests, 1);
}

#[test]
fn every_failed_fetch_of_a_unit_is_counted() {
    let mut s = PrefetchService::new();
    assert!(s.begin_related());
    // The package itself, then three dependencies of which the first fails.
    s.finish_related(&vec![
        outcome(true, 10),
        outcome(false, 20),
        outcome(true, 30),
        outcome(true, 50),
    ]);
    assert_eq!(s.in_flight(), 0);
    assert_eq!(
        s.get_stats(),
        PrefetchStats {
            total_requests: 4,
            successful_requests: 3,
            failed_requests: 1,
            bytes_transferred: 0,
            average_response_time_ms: 36,
        }
    );
    assert!(matches!(s.begin_popular(PackageType::Formula, 0), PopularStep::NeedPackages));
    s.finish_popular(PackageType::Formula, &vec![outcome(false, 1), outcome(false, 1)], 5);
    assert_eq!(s.get_stats().failed_requests, 3);
    assert_eq!(s.get_stats().total_requests, 6);
    s.record_items(&Vec::new());
    assert_eq!(s.get_stats().total_requests, 6);
    s.record_items(&vec![outcome(true, 0)]);
    assert_eq!(s.get_stats().successful_requests, 4);
}

#[test]
fn popular_warm_up_needs_medium_priority_to_be_allowed() {
    let mut s = PrefetchService::new();
    s.update_network_conditions(network("3g", "wifi", false));
    assert!(matches!(s.begin_popular(PackageType::Formula, 0), PopularStep::Skip));
    assert_eq!(s.in_flight(), 0);
}

#[test]
fn related_warm_up_takes_three_dependencies() {
    let p = package("wget", 0, &["openssl", "libidn2", "gettext", "zlib"]);
    assert_eq!(related_targets(&p), strings(&["openssl", "libidn2", "gettext"]));
    assert_eq!(related_targets(&package("x", 0, &["a"])), strings(&["a"]));
    assert!(related_targets(&package("x", 0, &[])).is_empty());
    let mut s = PrefetchService::new();
    assert!(s.begin_related());
    s.finish_related(&vec![outcome(true, 10)]);
    assert_eq!(s.in_flight(), 0);
    assert_eq!(s.get_stats().successful_requests, 1);
}

#[test]
fn predictive_plan_searches_five_queries_for_both_kinds() {
    let queries = strings(&["a", "b", "c", "d", "e", "f", "g"]);
    let plan = predictive_plan(&queries);
    assert_eq!(plan.len(), 10);
    assert_eq!(plan[0], ("a".to_string(), PackageType::Formula));
    assert_eq!(plan[1], ("a".to_string(), PackageType::Cask));
    assert_eq!(plan[9], ("e".to_string(), PackageType::Cask));
    assert_eq!(predictive_plan(&strings(&["x"])).len(), 2);
    assert!(predictive_plan(&Vec::new()).is_empty());
    let result = PackageSearchResult {
        packages: vec![package("p1", 0, &[]), package("p2", 0, &[]), package("p3", 0, &[])],
        total_count: 3,
        search_time_ms: 1,
    };
    assert_eq!(predictive_targets(&result), strings(&["p1", "p2"]));
    assert_eq!(first_names(&result.packages, 0), Vec::<String>::new());
    assert_eq!(first_strings(&queries, 2), strings(&["a", "b"]));
}

#[test]
fn background_activities_follow_their_switches() {
    let mut s = PrefetchService::new();
    assert!(s.background_refresh_due());
    assert!(s.predictive_due());
    s.update_config(PrefetchConfig {
        background_refresh_enabled: false,
        predictive_enabled: false,
        ..PrefetchConfig::default()
    })
    .unwrap();
    assert!(!s.background_refresh_due());
    assert!(!s.predictive_due());
    s.update_config(PrefetchConfig::default()).unwrap();
    s.update_network_conditions(network("3g", "wifi", false));
    assert!(!s.background_refresh_due());
    assert!(!s.predictive_due());
}

#[test]
fn background_refresh_wants_only_cached_listings() {
    let mut cache = CacheManager::new(CacheConfig::default());
    cache.set_at("packages_formula", "[]".to_string(), Some(100), 0).unwrap();
    assert!(PrefetchService::refresh_wanted_at(&mut cache, PackageType::Formula, 50));
    assert!(!PrefetchService::refresh_wanted_at(&mut cache, PackageType::Cask, 50));
    assert!(!PrefetchService::refresh_wanted_at(&mut cache, PackageType::Formula, 101));
    assert_eq!(cache.size(), 0);
}

#[test]
fn prefetch_request_holds_plain_values() {
    let r = PrefetchRequest {
        id: "r1".to_string(),
        package_type: PackageType::Cask,
        packages: Some(strings(&["vlc"])),
        priority: PrefetchPriority::High,
        network_aware: true,
        created_at: 12,
    };
    assert_eq!(r.priority, PrefetchPriority::High);
    assert_eq!(r.packages.unwrap().len(), 1);
}
