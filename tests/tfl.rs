use std::sync::Arc;

use tb8::error::AppError;
use tb8::tfl::{deserialization_error, http_error, is_success, TflClient};

#[test]
fn client_default_app_id() {
    let c = TflClient::new(None, "k".to_string());
    assert_eq!(c.app_id, "tb8-rs");
    assert_eq!(c.app_key, "k");
    let c = TflClient::new(Some("mine".to_string()), "k".to_string());
    assert_eq!(c.app_id, "mine");
}

#[test]
fn build_url_carries_both_credentials() {
    let c = TflClient::new(Some("id".to_string()), "secret".to_string());
    let r = c.build_url("/Line/victoria").unwrap();
    assert_eq!(r.url, "https://api.tfl.gov.uk/Line/victoria");
    assert_eq!(
        r.query,
        vec![
            ("app_id".to_string(), "id".to_string()),
            ("app_key".to_string(), "secret".to_string())
        ]
    );
}

#[test]
fn build_url_rejects_bad_port() {
    let c = TflClient::new(None, "k".to_string());
    let r = c.build_url(":99999/Line");
    assert_eq!(r, Err(AppError::InternalError("Failed to parse URL: invalid port number".to_string())));
}

#[test]
fn request_paths() {
    let c = TflClient::new(None, "k".to_string());
    let base = "https://api.tfl.gov.uk";
    assert_eq!(c.lines_request().unwrap().url, format!("{}/Line", base));
    assert_eq!(c.line_by_id_request("bakerloo").unwrap().url, format!("{}/Line/bakerloo", base));
    assert_eq!(c.lines_by_mode_request("tube").unwrap().url, format!("{}/Line/Mode/tube", base));
    assert_eq!(
        c.arrivals_by_line_request("victoria").unwrap().url,
        format!("{}/Line/victoria/Arrivals", base)
    );
    assert_eq!(
        c.arrivals_by_line_at_stop_request("victoria", "940GZZLUVIC").unwrap().url,
        format!("{}/Line/victoria/Arrivals/940GZZLUVIC", base)
    );
    assert_eq!(
        c.disruptions_by_line_request("central").unwrap().url,
        format!("{}/Line/central/Disruption", base)
    );
    assert_eq!(
        c.disruptions_by_mode_request("dlr").unwrap().url,
        format!("{}/Line/Mode/dlr/Disruption", base)
    );
}

#[test]
fn success_range() {
    assert!(is_success(200));
    assert!(is_success(204));
    assert!(is_success(299));
    assert!(!is_success(199));
    assert!(!is_success(300));
    assert!(!is_success(500));
}

#[test]
fn http_500_message_has_status_and_body() {
    match http_error(500, Some("service unavailable".to_string())) {
        AppError::InternalError(m) => {
            assert!(m.contains("500"));
            assert!(m.contains("service unavailable"));
            assert_eq!(m, "HTTP error 500 Internal Server Error: service unavailable");
        }
        other => panic!("unexpected {:?}", other),
    }
}

#[test]
fn http_error_unreadable_body() {
    assert_eq!(
        http_error(404, None),
        AppError::InternalError("HTTP error 404 Not Found: Unknown error".to_string())
    );
    assert_eq!(
        http_error(599, Some("x".to_string())),
        AppError::InternalError("HTTP error 599 <unknown status code>: x".to_string())
    );
}

#[test]
fn deserialization_error_keeps_body_as_text() {
    let e = deserialization_error("results.[2]".to_string(), "bad".to_string(), b"ab\xffc");
    assert_eq!(
        e,
        AppError::DeserializationError {
            path: "results.[2]".to_string(),
            message: "bad".to_string(),
            raw_data: Some("ab\u{FFFD}c".to_string()),
        }
    );
}

#[test]
fn shared_client_concurrent_builds_agree() {
    let c = Arc::new(TflClient::new(Some("id".to_string()), "key".to_string()));
    let expected = c.arrivals_by_line_request("victoria").unwrap();
    let rt = tokio::runtime::Builder::new_multi_thread().worker_threads(8).build().unwrap();
    rt.block_on(async {
        let mut handles = Vec::new();
        for i in 0..100 {
            let c = Arc::clone(&c);
            handles.push(tokio::spawn(async move {
                let own = c.line_by_id_request(&format!("l{}", i)).unwrap();
                (c.arrivals_by_line_request("victoria").unwrap(), own, i)
            }));
        }
        for h in handles {
            let (shared, own, i) = h.await.unwrap();
            assert_eq!(shared, expected);
            assert_eq!(own.url, format!("https://api.tfl.gov.uk/Line/l{}", i));
        }
    });
}
