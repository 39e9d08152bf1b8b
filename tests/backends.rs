use upaste::backend::{
    backend_for, fetch_url, interpret_fetch, interpret_upload, key_from_member, keyed_upload,
    view_url, BackendShape, UploadResult,
};
use upaste::compose::{join, join_path, to_url};
use upaste::error::PasteError;

fn uploaded(r: Result<UploadResult, PasteError>) -> UploadResult {
    match r {
        Ok(u) => u,
        Err(e) => panic!("unexpected error: {:?}", e),
    }
}

#[test]
fn shape_follows_the_root_prefix() {
    assert_eq!(backend_for("https://paste.rs"), BackendShape::PlainBodyUrl);
    assert_eq!(backend_for("https://paste.rs/"), BackendShape::PlainBodyUrl);
    assert_eq!(backend_for("https://hastebin.com/documents"), BackendShape::JsonKeyed);
    assert_eq!(backend_for("https://example.test"), BackendShape::JsonKeyed);
}

#[test]
fn json_upload_then_fetch_round_trip() {
    let up = uploaded(interpret_upload(
        BackendShape::JsonKeyed,
        "https://example.test",
        false,
        200,
        "OK",
        "{\"key\":\"abc123\"}",
    ));
    assert_eq!(up.identifier.as_deref(), Some("abc123"));
    assert_eq!(up.viewable_url, "https://example.test/abc123");
    let key = up.identifier.unwrap();
    let shape = backend_for("https://example.test");
    let url = fetch_url(shape, "https://example.test", &key).unwrap();
    assert_eq!(url, "https://example.test/raw/abc123");
    let content = interpret_fetch(200, "OK", "hello\nworld".to_string()).unwrap();
    assert_eq!(content, "hello\nworld");
}

#[test]
fn plain_body_upload_keeps_the_url() {
    let up = uploaded(interpret_upload(
        BackendShape::PlainBodyUrl,
        "https://paste.rs",
        true,
        201,
        "Created",
        "https://paste.rs/xyz",
    ));
    assert_eq!(up.viewable_url, "https://paste.rs/xyz");
    assert_eq!(up.identifier, None);
}

#[test]
fn plain_body_fetch_has_no_raw_segment() {
    let url = fetch_url(BackendShape::PlainBodyUrl, "https://paste.rs", "xyz").unwrap();
    assert_eq!(url, "https://paste.rs/xyz");
}

#[test]
fn raw_flag_composes_the_raw_view() {
    assert_eq!(view_url("https://example.test", true, "k1").unwrap(), "https://example.test/raw/k1");
    assert_eq!(view_url("https://example.test", false, "k1").unwrap(), "https://example.test/k1");
    assert_eq!(join_path("https://example.test", &["raw", "k1"]), "https://example.test/raw/k1");
    assert_eq!(join_path("https://example.test", &["", "k1"]), "https://example.test/k1");
}

#[test]
fn failed_upload_reports_the_status() {
    match interpret_upload(
        BackendShape::JsonKeyed,
        "https://example.test",
        false,
        500,
        "Internal Server Error",
        "{\"key\":\"abc\"}",
    ) {
        Err(PasteError::UploadFailed { status, status_text }) => {
            assert_eq!(status, 500);
            assert_eq!(status_text, "Internal Server Error");
        }
        other => panic!("expected an upload failure, got {:?}", other),
    }
    assert!(matches!(
        interpret_upload(BackendShape::PlainBodyUrl, "https://paste.rs", false, 302, "Found", "x"),
        Err(PasteError::UploadFailed { status: 302, .. })
    ));
}

#[test]
fn answer_without_key_keeps_the_body() {
    match interpret_upload(
        BackendShape::JsonKeyed,
        "https://example.test",
        false,
        200,
        "OK",
        "{\"notkey\": \"x\"}",
    ) {
        Err(PasteError::ResponseParseFailed { raw_body }) => assert_eq!(raw_body, "{\"notkey\": \"x\"}"),
        other => panic!("expected a parse failure, got {:?}", other),
    }
}

#[test]
fn answer_that_is_not_json_fails() {
    assert!(matches!(
        interpret_upload(BackendShape::JsonKeyed, "https://example.test", false, 200, "OK", "abc"),
        Err(PasteError::ResponseParseFailed { .. })
    ));
    assert!(matches!(
        interpret_upload(BackendShape::JsonKeyed, "https://example.test", false, 200, "OK", "{\"key\": 5}"),
        Err(PasteError::ResponseParseFailed { .. })
    ));
}

#[test]
fn key_with_stray_quotes_is_trimmed() {
    let up = uploaded(interpret_upload(
        BackendShape::JsonKeyed,
        "https://example.test/",
        true,
        200,
        "OK",
        "{\"key\":\"\\\"q1\\\"\",\"extra\":1}",
    ));
    assert_eq!(up.identifier.as_deref(), Some("q1"));
    assert_eq!(up.viewable_url, "https://example.test/raw/q1");
}

#[test]
fn key_from_member_refuses_missing_or_empty_keys() {
    assert_eq!(key_from_member(Some("\"k\"".to_string()), "b").unwrap(), "k");
    assert!(matches!(
        key_from_member(Some("\"\"".to_string()), "b"),
        Err(PasteError::ResponseParseFailed { raw_body }) if raw_body == "b"
    ));
    assert!(matches!(
        key_from_member(None, "b"),
        Err(PasteError::ResponseParseFailed { raw_body }) if raw_body == "b"
    ));
    let up = uploaded(keyed_upload("https://example.test", false, Some("k2".to_string()), "b"));
    assert_eq!(up.viewable_url, "https://example.test/k2");
}

#[test]
fn fetch_failure_reports_the_status() {
    match interpret_fetch(404, "Not Found", "missing".to_string()) {
        Err(PasteError::FetchFailed { status, status_text }) => {
            assert_eq!(status, 404);
            assert_eq!(status_text, "Not Found");
        }
        other => panic!("expected a fetch failure, got {:?}", other),
    }
}

#[test]
fn urls_are_parsed_and_normalised() {
    assert_eq!(to_url("HTTPS://Example.TEST").unwrap(), "https://example.test/");
    assert!(matches!(
        to_url("not a url"),
        Err(PasteError::InvalidUrl { url }) if url == "not a url"
    ));
    assert!(matches!(
        view_url("hastebin", false, "k"),
        Err(PasteError::InvalidUrl { url }) if url == "hastebin/k"
    ));
    assert_eq!(join("https://example.test/", &["raw", "k"]).unwrap(), "https://example.test/raw/k");
}
