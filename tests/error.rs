use tb8::error::{AppError, ErrorBody};
use tb8::json::{extract_detail, parse_usize, segment_index};
use tb8::text::{is_whitespace, split_on, trim};

#[test]
fn statuses() {
    assert_eq!(AppError::TflApiError("t".to_string()).status_code(), 502);
    assert_eq!(AppError::ParseError("p".to_string()).status_code(), 500);
    assert_eq!(AppError::InternalError("i".to_string()).status_code(), 500);
    assert_eq!(AppError::NotFound("n".to_string()).status_code(), 404);
    let d = AppError::DeserializationError {
        path: "a".to_string(),
        message: "m".to_string(),
        raw_data: None,
    };
    assert_eq!(d.status_code(), 500);
}

#[test]
fn plain_bodies_have_no_detail() {
    assert_eq!(
        AppError::NotFound("gone".to_string()).into_body(),
        ErrorBody { status: 404, error: "gone".to_string(), detail: None }
    );
    assert_eq!(
        AppError::TflApiError("dns".to_string()).into_body(),
        ErrorBody { status: 502, error: "dns".to_string(), detail: None }
    );
    assert_eq!(
        AppError::ParseError("Invalid mode: bus".to_string()).into_body(),
        ErrorBody { status: 500, error: "Invalid mode: bus".to_string(), detail: None }
    );
}

#[test]
fn deserialization_body_points_at_fragment() {
    let e = AppError::DeserializationError {
        path: "results.[2]".to_string(),
        message: "invalid type: string \"x\", expected f64".to_string(),
        raw_data: Some("{\"results\": [1,2,\"x\"]}".to_string()),
    };
    let b = e.into_body();
    assert_eq!(b.status, 500);
    assert_eq!(
        b.error,
        "JSON deserialization failed at 'results.[2]': invalid type: string \"x\", expected f64"
    );
    assert_eq!(b.detail, Some("\"x\"".to_string()));
}

#[test]
fn deserialization_body_without_raw_data() {
    let e = AppError::DeserializationError {
        path: "p".to_string(),
        message: "m".to_string(),
        raw_data: None,
    };
    assert_eq!(e.into_body().detail, None);
}

#[test]
fn detail_fallbacks() {
    assert_eq!(extract_detail("not json", "a"), "Invalid JSON");
    assert_eq!(extract_detail("{\"a\": 1}", "b"), "Could not extract problematic value");
    assert_eq!(extract_detail("[1,2]", "[5]"), "Could not extract problematic value");
    assert_eq!(extract_detail("{\"a\": 1}", "a.b"), "Could not extract problematic value");
    assert_eq!(extract_detail("[1,2]", "x"), "Could not extract problematic value");
}

#[test]
fn detail_fragments() {
    let doc = "{\"results\": [1,2,\"x\"], \"o\": {\"k\": [true, {\"z\": null}]}}";
    assert_eq!(extract_detail(doc, "results"), "[1,2,\"x\"]");
    assert_eq!(extract_detail(doc, "results.[0]"), "1");
    assert_eq!(extract_detail(doc, "o.k.[1].z"), "null");
    assert_eq!(extract_detail(doc, "o.k.[+1]"), "{\"z\":null}");
    assert_eq!(extract_detail(doc, "results[2]"), "Could not extract problematic value");
}

#[test]
fn split_keeps_empty_pieces() {
    assert_eq!(split_on("a,,b", ','), vec!["a", "", "b"]);
    assert_eq!(split_on("", ','), vec![""]);
    assert_eq!(split_on(",", ','), vec!["", ""]);
    assert_eq!(split_on("results.[2]", '.'), vec!["results", "[2]"]);
}

#[test]
fn usize_parsing() {
    assert_eq!(parse_usize("12"), Some(12));
    assert_eq!(parse_usize("+7"), Some(7));
    assert_eq!(parse_usize("007"), Some(7));
    assert_eq!(parse_usize(""), None);
    assert_eq!(parse_usize("+"), None);
    assert_eq!(parse_usize("-1"), None);
    assert_eq!(parse_usize("1a"), None);
    assert_eq!(parse_usize("18446744073709551615"), Some(usize::MAX));
    assert_eq!(parse_usize("18446744073709551616"), None);
    assert_eq!(parse_usize("99999999999999999999x"), None);
}

#[test]
fn bracket_segments() {
    assert_eq!(segment_index("[2]"), Some(2));
    assert_eq!(segment_index("[]"), None);
    assert_eq!(segment_index("[x]"), None);
    assert_eq!(segment_index("2"), None);
    assert_eq!(segment_index("[2"), None);
}

#[test]
fn trim_removes_unicode_whitespace() {
    assert_eq!(trim("  central \t\n"), "central");
    assert_eq!(trim("\u{3000}dlr\u{a0}"), "dlr");
    assert_eq!(trim("a b"), "a b");
    assert_eq!(trim("   "), "");
    assert_eq!(trim(""), "");
    assert!(is_whitespace('\u{2028}'));
    assert!(!is_whitespace('x'));
    assert!(!is_whitespace('\u{200b}'));
}
