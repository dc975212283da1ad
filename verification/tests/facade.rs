use brewdeck::codec::JsonText;
use brewdeck::error::{retry_step, BrewDeckError, ErrorKind, ErrorRecovery, RetryDecision};
use brewdeck::services::brew_client::PackageType;
use brewdeck::services::cache_manager::{CacheConfig, CacheManager};
use brewdeck::services::package_service::{
    details_key, kind_tag, listing_key, search_key, FetchStep, PackageService, Query,
    DETAILS_TTL_MS, LISTING_TTL_MS, SEARCH_TTL_MS,
};

fn service() -> PackageService {
    PackageService::new(CacheManager::new(CacheConfig::default()))
}

fn search(query: &str, kind: PackageType) -> Query {
    Query::Search { query: query.to_string(), package_type: kind }
}

fn details(name: &str, kind: PackageType) -> Query {
    Query::Details { name: name.to_string(), package_type: kind }
}

#[test]
fn keys_are_derived_from_the_query() {
    assert_eq!(listing_key(PackageType::Formula), "packages_formula");
    assert_eq!(listing_key(PackageType::Cask), "packages_cask");
    assert_eq!(search_key("wget", PackageType::Cask), "search_cask_wget");
    assert_eq!(details_key("wget", PackageType::Formula), "package_formula_wget");
    assert_eq!(kind_tag(PackageType::Cask), "kind:cask");
    assert_eq!(Query::Packages(PackageType::Cask).cache_key(), "packages_cask");
    assert_eq!(search("a b", PackageType::Formula).cache_key(), "search_formula_a b");
    assert_eq!(details("vlc", PackageType::Cask).cache_key(), "package_cask_vlc");
}

#[test]
fn ttl_and_tags_depend_on_the_form_of_the_view() {
    let q = Query::Packages(PackageType::Formula);
    assert_eq!(q.cache_ttl(), 300_000);
    assert_eq!(q.cache_tags(), vec!["entities".to_string(), "kind:formula".to_string()]);
    let q = search("x", PackageType::Cask);
    assert_eq!(q.cache_ttl(), 60_000);
    assert_eq!(q.cache_tags(), vec!["search".to_string(), "kind:cask".to_string()]);
    let q = details("wget", PackageType::Formula);
    assert_eq!(q.cache_ttl(), 600_000);
    assert_eq!(
        q.cache_tags(),
        vec!["package_details".to_string(), "kind:formula".to_string(), "wget".to_string()]
    );
    assert_eq!((LISTING_TTL_MS, SEARCH_TTL_MS, DETAILS_TTL_MS), (300_000, 60_000, 600_000));
}

#[test]
fn end_to_end_miss_fallback_and_hit() {
    let mut s = service();
    let q = Query::Packages(PackageType::Formula);
    // Miss.
    assert_eq!(s.cached_at(&q, 1_000), None);
    // The remote catalog fails with a network failure after two retries.
    let mut policy = PackageService::remote_fetch_policy();
    assert_eq!(policy, ErrorRecovery::new().with_max_retries(2).with_fallback());
    let mut attempts = 0;
    let mut delays = Vec::new();
    let primary: Result<String, BrewDeckError> = loop {
        attempts += 1;
        let outcome = Err(BrewDeckError::NetworkError(format!("down {attempts}")));
        match retry_step(&mut policy, outcome) {
            RetryDecision::Finished(r) => break r,
            RetryDecision::RetryAfter { delay_ms, .. } => delays.push(delay_ms),
        }
    };
    assert_eq!(attempts, 3);
    assert_eq!(delays, vec![1000, 2000]);
    let primary_error = match s.primary_fetched_at(&q, primary, 1_000) {
        FetchStep::TryFallback(e) => e,
        FetchStep::Done(_) => panic!("a failed fetch must ask for the fallback"),
    };
    assert_eq!(primary_error.kind(), ErrorKind::NetworkError);
    assert_eq!(s.cache.size(), 0);
    // The local tool succeeds.
    let names = "[\"wget\",\"curl\"]".to_string();
    let r = s.fallback_fetched_at(&q, primary_error, Ok(names.clone()), 1_000);
    assert_eq!(r.unwrap(), names);
    // The cache holds the key, tagged.
    assert_eq!(s.cache.size(), 1);
    // A later read within the time to live is a hit.
    assert_eq!(s.cached_at(&q, 1_000 + 300_000), Some(names.clone()));
    assert_eq!(s.cache.get_at("packages_formula", 2_000), Some(names));
    assert_eq!(s.cache.invalidate_by_tags(&vec!["kind:cask".to_string()]), 0);
    assert_eq!(s.cache.invalidate_by_tags(&vec!["kind:formula".to_string()]), 1);
    let mut t = service();
    t.primary_fetched_at(&q, Ok("[]".to_string()), 0);
    assert_eq!(t.cache.invalidate_by_tags(&vec!["entities".to_string()]), 1);
}

#[test]
fn read_expires_after_its_ttl() {
    let mut s = service();
    let q = search("wget", PackageType::Formula);
    match s.primary_fetched_at(&q, Ok("{\"total\":0}".to_string()), 0) {
        FetchStep::Done(Ok(text)) => assert_eq!(text, "{\"total\":0}"),
        _ => panic!("a fetched answer ends the read"),
    }
    assert!(s.cached_at(&q, 60_000).is_some());
    assert!(s.cached_at(&q, 60_001).is_none());
}

#[test]
fn both_sources_failing_returns_the_primary_error() {
    let mut s = service();
    let q = details("wget", PackageType::Formula);
    let a = BrewDeckError::RateLimitExceeded("A".to_string());
    let b = BrewDeckError::PackageNotFound("B".to_string());
    let e = s.fallback_fetched_at(&q, a, Err(b), 0).unwrap_err();
    assert_eq!(e.kind(), ErrorKind::RateLimitExceeded);
    assert_eq!(e.message(), "A");
    assert_eq!(s.cache.size(), 0);
}

#[test]
fn answer_that_is_not_json_is_an_encoding_error() {
    let mut s = service();
    let q = Query::Packages(PackageType::Cask);
    match s.primary_fetched_at(&q, Ok("<html>".to_string()), 0) {
        FetchStep::Done(Err(e)) => assert_eq!(e.kind(), ErrorKind::SerializationError),
        _ => panic!("a malformed answer must end the read with an error"),
    }
    assert_eq!(s.cache.size(), 0);
    let a = BrewDeckError::NetworkError("A".to_string());
    let e = s.fallback_fetched_at(&q, a, Ok("{".to_string()), 0).unwrap_err();
    assert_eq!(e.kind(), ErrorKind::SerializationError);
}

#[test]
fn successful_mutation_invalidates_three_views() {
    let mut s = service();
    let texts = "1".to_string();
    for q in [
        Query::Packages(PackageType::Formula),
        Query::Packages(PackageType::Cask),
        details("wget", PackageType::Formula),
        details("curl", PackageType::Formula),
        details("wget", PackageType::Cask),
        search("w", PackageType::Formula),
        search("v", PackageType::Cask),
    ] {
        s.primary_fetched_at(&q, Ok(texts.clone()), 0);
    }
    assert_eq!(s.cache.size(), 7);
    let report =
        s.finish_mutation("wget", PackageType::Formula, Ok("Successfully installed wget".into()), 42);
    assert!(report.success);
    assert_eq!(report.message, "Successfully installed wget");
    assert_eq!(report.package_name, "wget");
    assert_eq!(report.duration_ms, 42);
    assert_eq!(s.cache.size(), 3);
    assert!(s.cached_at(&Query::Packages(PackageType::Cask), 1).is_some());
    assert!(s.cached_at(&details("curl", PackageType::Formula), 1).is_some());
    assert!(s.cached_at(&details("wget", PackageType::Cask), 1).is_some());
}

#[test]
fn failed_mutation_is_a_report_not_an_error() {
    let mut s = service();
    s.primary_fetched_at(&Query::Packages(PackageType::Formula), Ok("1".to_string()), 0);
    let report = s.finish_mutation(
        "wget",
        PackageType::Formula,
        Err(BrewDeckError::InstallationFailed("Failed to install wget: no".into())),
        7,
    );
    assert!(!report.success);
    assert_eq!(report.message, "Installation failed: Failed to install wget: no");
    assert_eq!(report.package_name, "wget");
    assert_eq!(s.cache.size(), 1);
}

#[test]
fn clock_reading_reads_work_together() {
    let mut s = service();
    let q = Query::Packages(PackageType::Formula);
    assert!(s.cached(&q).is_none());
    match s.primary_fetched(&q, Err(BrewDeckError::TimeoutError("t".into()))) {
        FetchStep::TryFallback(e) => {
            assert_eq!(s.fallback_fetched(&q, e, Ok("[1]".to_string())).unwrap(), "[1]");
        }
        FetchStep::Done(_) => panic!("a failed fetch must ask for the fallback"),
    }
    assert_eq!(s.cached(&q), Some("[1]".to_string()));
    match s.primary_fetched(&search("q", PackageType::Cask), Ok("[2]".to_string())) {
        FetchStep::Done(Ok(text)) => assert_eq!(text, "[2]"),
        _ => panic!("a fetched answer ends the read"),
    }
    s.invalidate_package_caches("x", PackageType::Formula);
    assert_eq!(s.cache.size(), 0);
}

#[test]
fn checked_answers_are_stored_as_they_are() {
    let mut s = service();
    let q = details("wget", PackageType::Cask);
    let answer = JsonText::parse("{\"name\":\"wget\"}".to_string()).unwrap();
    assert_eq!(s.store_answer_at(&q, answer, 100), "{\"name\":\"wget\"}");
    assert_eq!(s.cached_at(&q, 100 + 600_000), Some("{\"name\":\"wget\"}".to_string()));
    assert_eq!(s.cached_at(&q, 100 + 600_001), None);
    let answer = JsonText::parse("1".to_string()).unwrap();
    s.store_answer_at(&q, answer, 0);
    assert_eq!(s.cache.invalidate_by_tags(&vec!["wget".to_string()]), 1);
}

#[test]
fn remote_fetch_is_not_retried_on_a_permanent_failure() {
    let mut policy = PackageService::remote_fetch_policy();
    let outcome: Result<String, BrewDeckError> =
        Err(BrewDeckError::PackageNotFound("x".to_string()));
    match retry_step(&mut policy, outcome) {
        RetryDecision::Finished(Err(e)) => assert_eq!(e.message(), "x"),
        _ => panic!("a missing package must not be asked for again"),
    }
    assert_eq!(policy.retry_count, 0);
}

#[test]
fn background_refresh_stores_the_listing_anew() {
    let mut s = service();
    let q = Query::Packages(PackageType::Formula);
    s.primary_fetched_at(&q, Ok("[\"old\"]".to_string()), 0);
    // Read twice, so that the old entry has been accessed.
    assert!(s.cached_at(&q, 10).is_some());
    assert!(s.cached_at(&q, 20).is_some());
    assert_eq!(s.cache.stats_at(20).total_access_count, 2);
    // A failed fetch and a malformed answer change nothing.
    assert!(!s.refresh_fetched_at(&q, Err(BrewDeckError::NetworkError("down".into())), 200_000));
    assert!(!s.refresh_fetched_at(&q, Ok("<html>".to_string()), 200_000));
    assert_eq!(s.cached_at(&q, 300_000), Some("[\"old\"]".to_string()));
    // A fetched listing takes the place of the old entry, with a fresh age.
    assert!(s.refresh_fetched_at(&q, Ok("[\"new\"]".to_string()), 200_000));
    assert_eq!(s.cache.size(), 1);
    assert_eq!(s.cache.stats_at(200_000).total_access_count, 0);
    assert_eq!(s.cached_at(&q, 500_000), Some("[\"new\"]".to_string()));
    assert_eq!(s.cached_at(&q, 500_001), None);
    // The new entry carries the tags of the query.
    assert!(s.refresh_fetched_at(&q, Ok("[]".to_string()), 600_000));
    assert_eq!(s.cache.invalidate_by_tags(&vec!["kind:formula".to_string()]), 1);
    // The clock-reading twin stores too.
    assert!(s.refresh_fetched(&Query::Packages(PackageType::Cask), Ok("[1]".to_string())));
    assert_eq!(s.cached(&Query::Packages(PackageType::Cask)), Some("[1]".to_string()));
}
