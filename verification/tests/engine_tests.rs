use snapshot_cache::engine::CycleReport;
use snapshot_cache::engine::FetchOutcome;
use snapshot_cache::engine::FetchRequest;
use snapshot_cache::engine::FetchStep;
use snapshot_cache::engine::RefreshEngine;
use snapshot_cache::engine::Signal;
use snapshot_cache::error::CacheError;
use snapshot_cache::error::ErrorKind;
use snapshot_cache::sources::LocalFileConfigSource;
use snapshot_cache::sources::ModifiedTime;

fn done(step: FetchStep<u128, Vec<u8>>) -> CycleReport<u128> {
    match step {
        FetchStep::Done(report) => report,
        FetchStep::Process { .. } => panic!("the cycle should be over"),
    }
}

#[test]
fn new_engine_is_cold_and_empty() {
    let engine: RefreshEngine<u128, Vec<i32>> = RefreshEngine::new(None);
    assert!(!engine.is_warm());
    assert!(engine.current().is_none());
    assert!(engine.last_known_version().is_none());
    assert!(!engine.has_pending_fallback());
    assert_eq!(engine.next_request(), FetchRequest::Unconditional);
}

#[test]
fn successful_cycle_publishes_and_warms() {
    let mut engine: RefreshEngine<u128, Vec<i32>> = RefreshEngine::new(None);
    let step = engine.on_fetch(FetchOutcome::Fetched { version: Some(10), payload: vec![1u8, 2] });
    let (version, payload) = match step {
        FetchStep::Process { version, payload } => (version, payload),
        FetchStep::Done(_) => panic!("a payload is to be processed"),
    };
    assert_eq!(version, Some(10));
    assert_eq!(payload, vec![1u8, 2]);
    assert!(engine.current().is_none());
    let report = engine.on_processed(version, Ok(vec![7, 8]));
    assert_eq!(report.signal, Signal::Updated);
    assert!(report.updated);
    assert_eq!(report.old_version, None);
    assert!(report.failure.is_none());
    assert!(!report.fallback_invoked);
    assert!(engine.is_warm());
    assert_eq!(engine.current(), Some(&vec![7, 8]));
    assert_eq!(engine.last_known_version(), Some(&10));
    assert_eq!(engine.next_request(), FetchRequest::IfNewer);
}

#[test]
fn update_reports_the_version_known_before() {
    let mut engine: RefreshEngine<u128, Vec<i32>> = RefreshEngine::new(None);
    engine.on_processed(Some(10), Ok(vec![1]));
    let report = engine.on_processed(Some(20), Ok(vec![2]));
    assert!(report.updated);
    assert_eq!(report.old_version, Some(10));
    assert_eq!(engine.last_known_version(), Some(&20));
    assert_eq!(engine.current(), Some(&vec![2]));
}

#[test]
fn not_modified_changes_nothing_and_calls_nobody() {
    let mut engine: RefreshEngine<u128, Vec<i32>> = RefreshEngine::new(None);
    engine.on_processed(Some(10), Ok(vec![1]));
    let report = done(engine.on_fetch(FetchOutcome::NotModified));
    assert_eq!(report.signal, Signal::NoUpdate);
    assert!(!report.updated);
    assert!(report.failure.is_none());
    assert!(!report.fallback_invoked);
    assert_eq!(engine.last_known_version(), Some(&10));
    assert_eq!(engine.current(), Some(&vec![1]));
    assert!(engine.is_warm());
}

#[test]
fn process_error_keeps_the_published_collection() {
    let mut engine: RefreshEngine<u128, Vec<i32>> = RefreshEngine::new(Some(vec![0]));
    engine.on_processed(Some(10), Ok(vec![1, 2, 3]));
    let error = CacheError::process(String::from("bad line"));
    let report = engine.on_processed(Some(11), Err(error.clone()));
    assert_eq!(report.signal, Signal::ProcessError);
    assert!(!report.updated);
    assert_eq!(report.failure, Some(error));
    assert!(!report.fallback_invoked);
    assert_eq!(engine.current(), Some(&vec![1, 2, 3]));
    assert_eq!(engine.last_known_version(), Some(&10));
    assert!(engine.is_warm());
}

#[test]
fn cold_failures_serve_the_fallback_once() {
    let mut engine: RefreshEngine<u128, Vec<i32>> = RefreshEngine::new(Some(vec![42]));
    assert!(engine.has_pending_fallback());
    let mut invoked = 0;
    let mut failures = 0;
    for round in 0..5 {
        let error = CacheError::fetch(format!("down {}", round));
        let report = done(engine.on_fetch(FetchOutcome::Failed(error.clone())));
        assert_eq!(report.signal, Signal::FetchError);
        assert_eq!(report.failure, Some(error));
        if report.failure.is_some() {
            failures += 1;
        }
        if report.fallback_invoked {
            invoked += 1;
        }
        assert_eq!(engine.current(), Some(&vec![42]));
        assert!(!engine.is_warm());
        assert!(!engine.has_pending_fallback());
        assert_eq!(engine.next_request(), FetchRequest::Unconditional);
    }
    assert_eq!(invoked, 1);
    assert_eq!(failures, 5);
}

#[test]
fn cold_failure_without_fallback_shows_nothing() {
    let mut engine: RefreshEngine<u128, Vec<i32>> = RefreshEngine::new(None);
    let report = engine.on_failure(Signal::FetchError, CacheError::fetch(String::from("down")));
    assert!(!report.fallback_invoked);
    assert_eq!(report.failure.map(|e| e.kind), Some(ErrorKind::Fetch));
    assert!(engine.current().is_none());
    assert!(!engine.is_warm());
}

#[test]
fn real_refresh_replaces_the_fallback() {
    let mut engine: RefreshEngine<u128, Vec<i32>> = RefreshEngine::new(Some(vec![42]));
    engine.on_failure(Signal::FetchError, CacheError::fetch(String::from("down")));
    assert_eq!(engine.current(), Some(&vec![42]));
    let report = engine.on_processed(None, Ok(vec![1]));
    assert!(report.updated);
    assert!(engine.is_warm());
    assert_eq!(engine.current(), Some(&vec![1]));
    assert!(engine.last_known_version().is_none());
    assert_eq!(engine.next_request(), FetchRequest::Unconditional);
}

#[test]
fn warm_failure_does_not_bring_the_fallback_back() {
    let mut engine: RefreshEngine<u128, Vec<i32>> = RefreshEngine::new(Some(vec![42]));
    engine.on_processed(Some(1), Ok(vec![1]));
    assert!(!engine.has_pending_fallback());
    let report = engine.on_failure(Signal::FetchError, CacheError::fetch(String::from("down")));
    assert!(!report.fallback_invoked);
    assert_eq!(engine.current(), Some(&vec![1]));
}

#[test]
fn equal_version_is_published_again() {
    let mut engine: RefreshEngine<u128, Vec<i32>> = RefreshEngine::new(None);
    engine.on_processed(Some(10), Ok(vec![1]));
    let report = engine.on_processed(Some(10), Ok(vec![2]));
    assert!(report.updated);
    assert_eq!(report.old_version, Some(10));
    assert_eq!(engine.current(), Some(&vec![2]));
}

#[test]
fn error_constructors_set_kind_and_message() {
    let f = CacheError::fetch(String::from("a"));
    let p = CacheError::process(String::from("b"));
    let c = CacheError::configuration(String::from("c"));
    assert_eq!(f.kind, ErrorKind::Fetch);
    assert_eq!(p.kind, ErrorKind::Process);
    assert_eq!(c.kind, ErrorKind::Configuration);
    assert_eq!(f.describe(), "a");
    assert_eq!(CacheError::new(ErrorKind::Fetch, String::from("a")), f);
    assert_eq!(p.message, "b");
    assert_eq!(c.describe(), "c");
}

#[test]
fn outcomes_are_read_from_the_sources_answers() {
    let o: FetchOutcome<u128, &str> = FetchOutcome::from_fetch(Ok((Some(3), "p")));
    assert!(matches!(o, FetchOutcome::Fetched { version: Some(3), payload: "p" }));
    let o: FetchOutcome<u128, &str> =
        FetchOutcome::from_fetch(Err(CacheError::fetch(String::from("down"))));
    assert!(matches!(o, FetchOutcome::Failed(e) if e.message == "down"));
    let o: FetchOutcome<u128, &str> = FetchOutcome::from_conditional(Ok(None));
    assert!(matches!(o, FetchOutcome::NotModified));
    let o: FetchOutcome<u128, &str> = FetchOutcome::from_conditional(Ok(Some((None, "p"))));
    assert!(matches!(o, FetchOutcome::Fetched { version: None, payload: "p" }));
    let o: FetchOutcome<u128, &str> =
        FetchOutcome::from_conditional(Err(CacheError::fetch(String::from("down"))));
    assert!(matches!(o, FetchOutcome::Failed(e) if e.kind == ErrorKind::Fetch));
}

#[test]
fn versions_do_not_go_back_under_a_file_source() {
    let source = LocalFileConfigSource::new("f");
    let mut engine: RefreshEngine<u128, Vec<i32>> = RefreshEngine::new(None);
    let times = [(10u64, 0u32), (10, 0), (9, 0), (10, 999_999), (10, 1_000_000), (10, 0), (12, 5)];
    let mut processed = 0;
    let mut last: u128 = 0;
    for (secs, nanos) in times {
        let modified = ModifiedTime::SinceEpoch { secs, nanos };
        let known = engine.last_known_version().copied();
        assert_eq!(known.is_some(), engine.next_request() == FetchRequest::IfNewer);
        let outcome = source.outcome(known, Ok((modified, vec![0u8])));
        if let FetchStep::Process { version, .. } = engine.on_fetch(outcome) {
            processed += 1;
            engine.on_processed(version, Ok(vec![processed]));
        }
        let now = *engine.last_known_version().unwrap();
        assert!(last <= now);
        last = now;
    }
    assert_eq!(processed, 3);
    assert_eq!(last, 12_000);
    assert_eq!(engine.current(), Some(&vec![3]));
}

#[test]
fn failure_callback_sees_what_was_current_before() {
    let mut engine: RefreshEngine<u128, Vec<i32>> = RefreshEngine::new(Some(vec![42]));
    let report = engine.on_failure(Signal::FetchError, CacheError::fetch(String::from("down")));
    assert!(report.fallback_invoked);
    assert_eq!(engine.current_before_failure(report.fallback_invoked), None);
    assert_eq!(engine.current(), Some(&vec![42]));
    let report = engine.on_failure(Signal::FetchError, CacheError::fetch(String::from("down")));
    assert!(!report.fallback_invoked);
    assert_eq!(engine.current_before_failure(report.fallback_invoked), Some(&vec![42]));
    engine.on_processed(Some(1), Ok(vec![1]));
    let report = engine.on_failure(Signal::ProcessError, CacheError::process(String::from("bad")));
    assert_eq!(engine.current_before_failure(report.fallback_invoked), Some(&vec![1]));
}
