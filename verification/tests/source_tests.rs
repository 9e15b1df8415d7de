use snapshot_cache::engine::FetchOutcome;
use snapshot_cache::error::CacheError;
use snapshot_cache::error::ErrorKind;
use snapshot_cache::http::HttpConfigSource;
use snapshot_cache::http::status_failure;
use snapshot_cache::s3::ObjectResponse;
use snapshot_cache::s3::S3ConfigSource;
use snapshot_cache::s3::Timestamp;
use snapshot_cache::sources::file_version;
use snapshot_cache::sources::millis_since_epoch;
use snapshot_cache::sources::LocalFileConfigSource;
use snapshot_cache::sources::ModifiedTime;

#[test]
fn millis_are_whole_milliseconds() {
    assert_eq!(millis_since_epoch(0, 0), 0);
    assert_eq!(millis_since_epoch(2, 5_000_000), 2005);
    assert_eq!(millis_since_epoch(2, 5_999_999), 2005);
    assert_eq!(millis_since_epoch(1_700_000_000, 123_456_789), 1_700_000_000_123);
    assert_eq!(millis_since_epoch(u64::MAX, 999_999_999), (u64::MAX as u128) * 1000 + 999);
}

#[test]
fn file_source_keeps_its_path() {
    let source = LocalFileConfigSource::new("./my.config");
    assert_eq!(*source.path(), "./my.config");
}

#[test]
fn file_fetch_gives_the_mtime_as_version() {
    let source = LocalFileConfigSource::new("f");
    let r = source.fetch(Ok((ModifiedTime::SinceEpoch { secs: 3, nanos: 1_000_000 }, "payload")));
    assert_eq!(r, Ok((Some(3001), "payload")));
    let r = source.fetch(Ok((ModifiedTime::Unsupported, "payload")));
    assert_eq!(r, Ok((None, "payload")));
}

#[test]
fn file_before_the_epoch_is_fetched_without_a_version() {
    let source = LocalFileConfigSource::new("f");
    let r = source.fetch(Ok((ModifiedTime::BeforeEpoch, "payload")));
    assert_eq!(r, Ok((None, "payload")));
    let r = source.fetch_if_newer(&5, Ok((ModifiedTime::BeforeEpoch, "payload")));
    assert_eq!(r, Ok(Some((None, "payload"))));
    let r = source.fetch_if_newer(&u128::MAX, Ok((ModifiedTime::BeforeEpoch, "payload")));
    assert_eq!(r, Ok(Some((None, "payload"))));
}

#[test]
fn file_that_does_not_open_is_a_fetch_error() {
    let source = LocalFileConfigSource::new("f");
    let error = CacheError::fetch(String::from("No such file or directory"));
    let r = source.fetch(Err::<(ModifiedTime, &str), CacheError>(error.clone()));
    assert_eq!(r, Err(error.clone()));
    let r = source.fetch_if_newer(&5, Err::<(ModifiedTime, &str), CacheError>(error.clone()));
    assert_eq!(r, Err(error.clone()));
    let o = source.outcome(Some(5), Err::<(ModifiedTime, &str), CacheError>(error.clone()));
    assert!(matches!(o, FetchOutcome::Failed(e) if e == error));
}

#[test]
fn file_fetch_hands_the_payload_back_whole() {
    let source = LocalFileConfigSource::new("f");
    let payload = b"A=1\nX\n".to_vec();
    let r = source.fetch(Ok((ModifiedTime::SinceEpoch { secs: 1, nanos: 0 }, payload.clone())));
    assert_eq!(r, Ok((Some(1000), payload)));
}

#[test]
fn unchanged_file_is_not_fetched_twice() {
    let source = LocalFileConfigSource::new("f");
    let modified = ModifiedTime::SinceEpoch { secs: 100, nanos: 0 };
    let (version, _) = source.fetch(Ok((modified, ()))).unwrap();
    let version = version.unwrap();
    assert_eq!(version, 100_000);
    assert_eq!(source.fetch_if_newer(&version, Ok((modified, ()))), Ok(None));
    assert_eq!(source.fetch_if_newer(&version, Ok((modified, ()))), Ok(None));
    assert!(matches!(source.outcome(Some(version), Ok((modified, ()))), FetchOutcome::NotModified));
}

#[test]
fn touched_file_is_fetched_once() {
    let source = LocalFileConfigSource::new("f");
    let touched = ModifiedTime::SinceEpoch { secs: 100, nanos: 1_000_000 };
    let r = source.fetch_if_newer(&100_000, Ok((touched, "p")));
    assert_eq!(r, Ok(Some((Some(100_001), "p"))));
    assert_eq!(source.fetch_if_newer(&100_001, Ok((touched, "p"))), Ok(None));
}

#[test]
fn older_file_is_not_modified() {
    let source = LocalFileConfigSource::new("f");
    let older = ModifiedTime::SinceEpoch { secs: 99, nanos: 0 };
    assert_eq!(source.fetch_if_newer(&100_000, Ok((older, ()))), Ok(None));
}

#[test]
fn file_without_mtime_is_always_fetched() {
    let source = LocalFileConfigSource::new("f");
    assert_eq!(
        source.fetch_if_newer(&5, Ok((ModifiedTime::Unsupported, "p"))),
        Ok(Some((None, "p")))
    );
    let o = source.outcome(None, Ok((ModifiedTime::Unsupported, "p")));
    assert!(matches!(o, FetchOutcome::Fetched { version: None, payload: "p" }));
    let o = source.outcome(None, Ok((ModifiedTime::SinceEpoch { secs: 1, nanos: 0 }, "p")));
    assert!(matches!(o, FetchOutcome::Fetched { version: Some(1000), payload: "p" }));
}

#[test]
fn times_keep_their_nanoseconds_within_the_second() {
    assert_eq!(file_version(ModifiedTime::SinceEpoch { secs: 2, nanos: 999_999_999 }), Some(2999));
    assert_eq!(file_version(ModifiedTime::BeforeEpoch), None);
    assert_eq!(file_version(ModifiedTime::Unsupported), None);
    assert_eq!(
        ModifiedTime::since_epoch(2, 999_999_999),
        Some(ModifiedTime::SinceEpoch { secs: 2, nanos: 999_999_999 })
    );
    assert_eq!(ModifiedTime::since_epoch(2, 1_000_000_000), None);
    assert!(ModifiedTime::SinceEpoch { secs: 0, nanos: 0 }.is_valid());
    assert!(!ModifiedTime::SinceEpoch { secs: 0, nanos: 1_000_000_000 }.is_valid());
    assert!(ModifiedTime::BeforeEpoch.is_valid());
    assert!(ModifiedTime::Unsupported.is_valid());
    assert_eq!(Timestamp::new(-5, 7), Some(Timestamp { seconds: -5, subsecond_nanos: 7 }));
    assert_eq!(Timestamp::new(1, 1_000_000_000), None);
    assert_eq!(Timestamp::new(1, u32::MAX), None);
    assert!(Timestamp { seconds: 1, subsecond_nanos: 999_999_999 }.is_valid());
    assert!(!Timestamp { seconds: 1, subsecond_nanos: 1_000_000_000 }.is_valid());
}

#[test]
fn http_version_is_the_header_text() {
    let header = b"Wed, 21 Oct 2015 07:28:00 GMT";
    let v = HttpConfigSource::<()>::get_version(Some(&header[..]));
    assert_eq!(v, Some(String::from("Wed, 21 Oct 2015 07:28:00 GMT")));
    assert_eq!(HttpConfigSource::<()>::get_version(None), None);
    assert_eq!(HttpConfigSource::<()>::get_version(Some(&[0xC3u8, 0xA9][..])), None);
    assert_eq!(HttpConfigSource::<()>::get_version(Some(&[b'a', 0x7F][..])), None);
    assert_eq!(HttpConfigSource::<()>::get_version(Some(&[b'a', 1][..])), None);
    assert_eq!(HttpConfigSource::<()>::get_version(Some(&b"a\tb"[..])), Some(String::from("a\tb")));
    assert_eq!(HttpConfigSource::<()>::get_version(Some(&b""[..])), Some(String::new()));
}

#[test]
fn http_fetch_goes_by_the_status() {
    let source = HttpConfigSource::new((), String::from("http://localhost/config"));
    assert_eq!(source.url(), "http://localhost/config");
    assert_eq!(*source.client(), ());
    let r = source.fetch(200, Some(&b"v1"[..]), "body");
    assert_eq!(r, Ok((Some(String::from("v1")), "body")));
    let r = source.fetch(299, None, "body");
    assert_eq!(r, Ok((None, "body")));
    let e = source.fetch(304, None, "body").unwrap_err();
    assert_eq!(e.kind, ErrorKind::Fetch);
    assert_eq!(e.message, "Fetch failed. Status: 304");
    let e = source.fetch(404, None, "body").unwrap_err();
    assert_eq!(e.message, "Fetch failed. Status: 404");
    let e = source.fetch(199, None, "body").unwrap_err();
    assert_eq!(e.message, "Fetch failed. Status: 199");
    let e = source.fetch(300, None, "body").unwrap_err();
    assert_eq!(e.message, "Fetch failed. Status: 300");
}

#[test]
fn http_conditional_fetch_goes_by_the_status() {
    let source = HttpConfigSource::new((), String::from("http://localhost/config"));
    let r = source.fetch_if_newer(200, Some(&b"v2"[..]), "body");
    assert_eq!(r, Ok(Some((Some(String::from("v2")), "body"))));
    assert_eq!(source.fetch_if_newer(304, Some(&b"v2"[..]), "body"), Ok(None));
    let e = source.fetch_if_newer(500, None, "body").unwrap_err();
    assert_eq!(e.kind, ErrorKind::Fetch);
    assert_eq!(e.message, "Fetch failed. Status: 500");
    let e = source.fetch_if_newer(301, None, "body").unwrap_err();
    assert_eq!(e.message, "Fetch failed. Status: 301");
}

#[test]
fn status_failure_names_the_status() {
    assert_eq!(status_failure(100).message, "Fetch failed. Status: 100");
    assert_eq!(status_failure(999).message, "Fetch failed. Status: 999");
    assert_eq!(status_failure(503).message, "Fetch failed. Status: 503");
    assert_eq!(status_failure(99).message, "Fetch failed. Status: ");
    assert_eq!(status_failure(1000).message, "Fetch failed. Status: ");
    assert_eq!(status_failure(0).kind, ErrorKind::Fetch);
}

#[test]
fn http_status_outside_the_codes_is_an_error() {
    let source = HttpConfigSource::new((), String::from("u"));
    assert!(source.fetch(0, None, ()).is_err());
    assert!(source.fetch(1200, None, ()).is_err());
    assert!(source.fetch_if_newer(65535, None, ()).is_err());
}

#[test]
fn object_source_keeps_its_settings() {
    let source = S3ConfigSource::new(7u8, String::from("bucket"), String::from("a/b.txt")).unwrap();
    assert_eq!(*source.client(), 7);
    assert_eq!(source.bucket(), "bucket");
    assert_eq!(source.path(), "a/b.txt");
}

#[test]
fn object_fetch_maps_the_answer() {
    let source = S3ConfigSource::new((), String::from("b"), String::from("k")).unwrap();
    let at = Timestamp { seconds: 1_700_000_000, subsecond_nanos: 5 };
    let r = source.fetch(ObjectResponse::Object { last_modified: Some(at), body: "body" });
    assert_eq!(r, Ok((Some(at), "body")));
    let r = source.fetch(ObjectResponse::<&str>::ServiceError {
        status: 304,
        message: String::from("not modified"),
    });
    let e = r.unwrap_err();
    assert_eq!(e.kind, ErrorKind::Fetch);
    assert_eq!(e.message, "not modified");
    let r = source.fetch(ObjectResponse::<&str>::OtherError { message: String::from("timeout") });
    assert_eq!(r.unwrap_err().message, "timeout");
}

#[test]
fn object_conditional_fetch_maps_the_answer() {
    let source = S3ConfigSource::new((), String::from("b"), String::from("k")).unwrap();
    let at = Timestamp { seconds: 12, subsecond_nanos: 0 };
    let r = source.fetch_if_newer(ObjectResponse::Object { last_modified: None, body: "body" });
    assert_eq!(r, Ok(Some((None, "body"))));
    let r = source.fetch_if_newer(ObjectResponse::Object { last_modified: Some(at), body: "body" });
    assert_eq!(r, Ok(Some((Some(at), "body"))));
    let r = source.fetch_if_newer(ObjectResponse::<&str>::ServiceError {
        status: 304,
        message: String::from("not modified"),
    });
    assert_eq!(r, Ok(None));
    let r = source.fetch_if_newer(ObjectResponse::<&str>::ServiceError {
        status: 403,
        message: String::from("denied"),
    });
    let e = r.unwrap_err();
    assert_eq!(e.kind, ErrorKind::Fetch);
    assert_eq!(e.message, "denied");
    let r = source.fetch_if_newer(ObjectResponse::<&str>::OtherError {
        message: String::from("timeout"),
    });
    assert_eq!(r.unwrap_err().message, "timeout");
}
