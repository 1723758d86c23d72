use imd::cache::{lookup_location_record, store_civitai_model_file_location, CacheError, LocationCache};
use imd::orchestrator::{
    first_live_location, perform_cache_action, Action, DownloadError, DownloadOrchestrator,
    DownloadTarget, Event, Phase,
};
use imd::retry::{FailureKind, RetryPolicy};

const ABCD: &str = "ABCD000000000000000000000000000000000000000000000000000000000000";

fn temp_cache() -> LocationCache {
    LocationCache::new(sled::Config::new().temporary(true).open().unwrap())
}

fn target(known_hash: Option<&str>, dir: &str) -> DownloadTarget {
    DownloadTarget {
        source_url: "https://civitai.com/api/download/models/3".to_string(),
        expected_size: Some(10),
        known_hash: known_hash.map(|h| h.to_string()),
        destination_dir: dir.to_string(),
        display_name: "m.safetensors".to_string(),
        model_id: 1,
        version_id: 2,
        file_id: 3,
    }
}

fn policy(max_retry: u32) -> RetryPolicy {
    RetryPolicy { initial_interval_secs: 1, multiplier_percent: 200, max_retry, per_attempt_timeout_secs: 300 }
}

/// Runs the cache action the machine asked for and feeds the outcome back.
fn cache_step(o: &mut DownloadOrchestrator, cache: &mut LocationCache, a: Action) -> Action {
    let e = perform_cache_action(cache, &a).expect("a cache action");
    o.step(e)
}

/// Drives a download that succeeds and hashes to `hash` at `path`.
fn finish_transfer(o: &mut DownloadOrchestrator, cache: &mut LocationCache, hash: &str, path: &str) -> Action {
    assert!(matches!(o.step(Event::TransferCompleted { bytes_written: 10 }), Action::ComputeHash));
    let a = o.step(Event::HashComputed { computed_hash: hash.to_string(), canonical_path: path.to_string() });
    assert!(matches!(a, Action::StoreLocation { .. }));
    cache_step(o, cache, a)
}

fn download_fresh(cache: &mut LocationCache) {
    let mut o = DownloadOrchestrator::new(target(Some(ABCD), "/dl/a"), policy(3));
    let a = o.step(Event::Start);
    assert!(matches!(&a, Action::LookupCache(h) if h == ABCD));
    let a = cache_step(&mut o, cache, a);
    assert!(matches!(a, Action::Transfer));
    let a = finish_transfer(&mut o, cache, ABCD, "/dl/a/m.safetensors");
    match a {
        Action::Complete(c) => {
            assert_eq!(c.file_name, "m.safetensors");
            assert_eq!(c.content_hash, ABCD);
            assert_eq!(c.final_path, "/dl/a/m.safetensors");
            assert_eq!(c.bytes_written, 10);
            assert!(!c.hash_mismatch);
        }
        other => panic!("unexpected action {other:?}"),
    }
    assert_eq!(o.phase, Phase::Done);
}

#[test]
fn first_download_creates_record() {
    let mut cache = temp_cache();
    download_fresh(&mut cache);
    let rec = lookup_location_record(&cache, ABCD).unwrap().unwrap();
    assert_eq!(rec.locations, vec!["/dl/a/m.safetensors".to_string()]);
    assert_eq!((rec.model_id, rec.version_id, rec.file_id), (1, 2, 3));
}

#[test]
fn second_download_elsewhere_adds_location() {
    let mut cache = temp_cache();
    download_fresh(&mut cache);
    let mut o = DownloadOrchestrator::new(target(Some(ABCD), "/dl/b"), policy(3));
    let a = o.step(Event::Start);
    let a = cache_step(&mut o, &mut cache, a);
    match &a {
        Action::CheckLocations(paths) => assert_eq!(paths, &vec!["/dl/a/m.safetensors".to_string()]),
        other => panic!("unexpected action {other:?}"),
    }
    let a = o.step(Event::LocationsChecked(vec![true]));
    assert!(matches!(&a, Action::AskOverwrite(p) if p == "/dl/a/m.safetensors"));
    assert!(matches!(o.step(Event::OverwriteDecided(true)), Action::Transfer));
    let a = finish_transfer(&mut o, &mut cache, ABCD, "/dl/b/m.safetensors");
    assert!(matches!(a, Action::Complete(_)));
    let rec = lookup_location_record(&cache, ABCD).unwrap().unwrap();
    assert_eq!(rec.locations.len(), 2);
    assert_eq!(rec.locations[1], "/dl/b/m.safetensors");
}

#[test]
fn declined_redownload_skips_without_network() {
    let mut cache = temp_cache();
    download_fresh(&mut cache);
    let mut o = DownloadOrchestrator::new(target(Some(ABCD), "/dl/b"), policy(3));
    let a = o.step(Event::Start);
    let a = cache_step(&mut o, &mut cache, a);
    assert!(matches!(a, Action::CheckLocations(_)));
    let a = o.step(Event::LocationsChecked(vec![true]));
    assert!(matches!(a, Action::AskOverwrite(_)));
    let a = o.step(Event::OverwriteDecided(false));
    assert!(matches!(&a, Action::Skip(p) if p == "/dl/a/m.safetensors"));
    assert_eq!(o.phase, Phase::Skipped);
}

#[test]
fn retry_budget_exhausted_leaves_no_record() {
    let mut cache = temp_cache();
    let mut o = DownloadOrchestrator::new(target(None, "/dl/a"), policy(3));
    assert!(matches!(o.step(Event::Start), Action::Transfer));
    let fail = || Event::TransferFailed { failure: FailureKind::ConnectionReset, elapsed_ms: 0, jitter: 200 };
    assert!(matches!(o.step(fail()), Action::Wait(1000)));
    assert!(matches!(o.step(Event::WaitFinished), Action::Transfer));
    assert!(matches!(o.step(fail()), Action::Wait(2000)));
    assert!(matches!(o.step(Event::WaitFinished), Action::Transfer));
    let a = o.step(fail());
    assert!(matches!(a, Action::Abort(DownloadError::RetryBudgetExhausted(FailureKind::ConnectionReset))));
    assert_eq!(o.phase, Phase::Failed);
    assert_eq!(o.retry.attempt_count, 3);
    assert!(lookup_location_record(&cache, ABCD).unwrap().is_none());
    assert!(perform_cache_action(&mut cache, &a).is_none());
}

#[test]
fn hash_mismatch_warns_and_stores_computed_hash() {
    let declared = "1".repeat(64);
    let actual = "2".repeat(64);
    let mut cache = temp_cache();
    let mut o = DownloadOrchestrator::new(target(Some(&declared), "/dl/a"), policy(3));
    let a = o.step(Event::Start);
    assert!(matches!(cache_step(&mut o, &mut cache, a), Action::Transfer));
    match finish_transfer(&mut o, &mut cache, &actual, "/dl/a/m.safetensors") {
        Action::Complete(c) => {
            assert!(c.hash_mismatch);
            assert_eq!(c.content_hash, actual);
        }
        other => panic!("unexpected action {other:?}"),
    }
    assert!(lookup_location_record(&cache, &actual).unwrap().is_some());
    assert!(lookup_location_record(&cache, &declared).unwrap().is_none());
}

#[test]
fn missing_cached_file_downloads_without_asking() {
    let mut cache = temp_cache();
    store_civitai_model_file_location(&mut cache, 1, 2, 3, ABCD, "/gone/m.safetensors").unwrap();
    let mut o = DownloadOrchestrator::new(target(Some(ABCD), "/dl/a"), policy(3));
    let a = o.step(Event::Start);
    let a = cache_step(&mut o, &mut cache, a);
    assert!(matches!(a, Action::CheckLocations(_)));
    let a = o.step(Event::LocationsChecked(vec![false]));
    assert!(matches!(a, Action::Transfer));
    assert_eq!(o.phase, Phase::Fetching);
}

#[test]
fn fatal_transfer_failure_aborts() {
    let mut o = DownloadOrchestrator::new(target(None, "/dl/a"), policy(3));
    o.step(Event::Start);
    let a = o.step(Event::TransferFailed { failure: FailureKind::HttpStatus(403), elapsed_ms: 0, jitter: 0 });
    assert!(matches!(a, Action::Abort(DownloadError::Fatal(FailureKind::HttpStatus(403)))));
}

#[test]
fn failed_cache_store_is_surfaced() {
    let mut o = DownloadOrchestrator::new(target(None, "/dl/a"), policy(3));
    o.step(Event::Start);
    o.step(Event::TransferCompleted { bytes_written: 1 });
    o.step(Event::HashComputed { computed_hash: ABCD.to_string(), canonical_path: "/dl/a/m".to_string() });
    let a = o.step(Event::StoreDone(Err(CacheError::WriteFailed("k".to_string()))));
    assert!(matches!(a, Action::Abort(DownloadError::Cache(CacheError::WriteFailed(_)))));
}

#[test]
fn event_out_of_order_aborts() {
    let mut o = DownloadOrchestrator::new(target(None, "/dl/a"), policy(3));
    let a = o.step(Event::WaitFinished);
    assert!(matches!(a, Action::Abort(DownloadError::UnexpectedEvent)));
    assert_eq!(o.phase, Phase::Failed);
}

#[test]
fn first_live_location_picks_earliest() {
    assert_eq!(first_live_location(&vec![false, true, true], 3), Some(1));
    assert_eq!(first_live_location(&vec![false, false], 2), None);
    assert_eq!(first_live_location(&vec![false, true], 1), None);
    assert_eq!(first_live_location(&vec![], 0), None);
}
