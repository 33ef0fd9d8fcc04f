use std::time::Instant;

use tb8::error::AppError;
use tb8::routes::{
    arrivals_by_lines_requests, arrivals_by_station_requests, create_error_response,
    create_metadata, create_response, disruption_requests, extend_results, is_allowed_mode,
    to_offset_micros,
    ArrivalsQuery, SqlQuery,
};
use tb8::tfl::TflClient;

fn client() -> TflClient {
    TflClient::new(Some("id".to_string()), "key".to_string())
}

#[test]
fn test_create_response() {
    // Setup
    let start_time = Instant::now();
    let query = "test_query";
    let results = vec!["result1", "result2"];

    // Execute
    let response = create_response(start_time, query, results);

    // Verify
    assert!(response.success);
    assert_eq!(response.results, vec!["result1", "result2"]);
    assert_eq!(response.context.query, "test_query");
    // We can't test exact timing, but we can verify it's not negative
    assert!(response.context.response_latency as f64 >= 0.0);
}

#[test]
fn metadata_response_not_before_request() {
    for _ in 0..100 {
        let m = create_metadata(Instant::now(), "q");
        assert!(m.response_time.micros >= m.request_time.micros);
        assert_eq!(m.query, "q");
    }
}

#[test]
fn error_response_keeps_message() {
    let r = create_error_response(Instant::now(), "mode=tube", "boom".to_string());
    assert!(!r.success);
    assert_eq!(r.error, "boom");
    assert_eq!(r.context.query, "mode=tube");
    assert!(r.context.response_time.micros >= r.context.request_time.micros);
}

#[test]
fn sql_query_defaults() {
    assert_eq!(SqlQuery { query: None }.query_or_default(), "SELECT * FROM self;");
    assert_eq!(SqlQuery { query: Some("x".to_string()) }.query_or_default(), "x");
}

#[test]
fn arrivals_query_lines_default_to_tube() {
    let q = ArrivalsQuery { query: "940GZZLUASL".to_string(), lines: None };
    assert_eq!(q.lines_or_default(), "tube");
    let q = ArrivalsQuery { query: "s".to_string(), lines: Some("dlr".to_string()) };
    assert_eq!(q.lines_or_default(), "dlr");
}

#[test]
fn disruption_modes_allowed_issue_requests_in_order() {
    let plan = disruption_requests(&client(), "tube,overground").unwrap();
    assert_eq!(plan.len(), 2);
    assert_eq!(plan[0].url, "https://api.tfl.gov.uk/Line/Mode/tube/Disruption");
    assert_eq!(plan[1].url, "https://api.tfl.gov.uk/Line/Mode/overground/Disruption");
}

#[test]
fn disruption_mode_not_allowed_fails_before_any_request() {
    let r = disruption_requests(&client(), "tube,bus");
    assert_eq!(r, Err(AppError::ParseError("Invalid mode: bus".to_string())));
}

#[test]
fn disruption_mode_with_space_is_rejected() {
    let r = disruption_requests(&client(), "tube, dlr");
    assert_eq!(r, Err(AppError::ParseError("Invalid mode:  dlr".to_string())));
}

#[test]
fn allowed_modes() {
    for m in ["tube", "overground", "dlr", "elizabeth-line"] {
        assert!(is_allowed_mode(m));
    }
    assert!(!is_allowed_mode("bus"));
    assert!(!is_allowed_mode(""));
    assert!(!is_allowed_mode("Tube"));
}

#[test]
fn arrivals_by_lines_one_request_per_trimmed_id() {
    let plan = arrivals_by_lines_requests(&client(), "victoria, central ").unwrap();
    assert_eq!(plan.len(), 2);
    assert_eq!(plan[0].url, "https://api.tfl.gov.uk/Line/victoria/Arrivals");
    assert_eq!(plan[1].url, "https://api.tfl.gov.uk/Line/central/Arrivals");
    for r in &plan {
        assert_eq!(r.query[0], ("app_id".to_string(), "id".to_string()));
        assert_eq!(r.query[1], ("app_key".to_string(), "key".to_string()));
    }
}

#[test]
fn arrivals_by_station_defaults_to_tube() {
    let plan = arrivals_by_station_requests(&client(), "940GZZLUASL", None).unwrap();
    assert_eq!(plan.len(), 1);
    assert_eq!(plan[0].url, "https://api.tfl.gov.uk/Line/tube/Arrivals/940GZZLUASL");
    let plan =
        arrivals_by_station_requests(&client(), "S", Some("dlr , piccadilly".to_string())).unwrap();
    assert_eq!(plan.len(), 2);
    assert_eq!(plan[0].url, "https://api.tfl.gov.uk/Line/dlr/Arrivals/S");
    assert_eq!(plan[1].url, "https://api.tfl.gov.uk/Line/piccadilly/Arrivals/S");
}

#[test]
fn arrivals_plan_keeps_empty_ids() {
    let plan = arrivals_by_lines_requests(&client(), "victoria,,central").unwrap();
    assert_eq!(plan.len(), 3);
    assert_eq!(plan[1].url, "https://api.tfl.gov.uk/Line//Arrivals");
}

#[test]
fn extend_keeps_order() {
    let mut acc = vec![1, 2];
    extend_results(&mut acc, vec![3, 4]);
    extend_results(&mut acc, Vec::new());
    assert_eq!(acc, vec![1, 2, 3, 4]);
}

#[test]
fn clock_offsets_saturate() {
    assert_eq!(to_offset_micros(true, 5), 5);
    assert_eq!(to_offset_micros(false, 5), -5);
    assert_eq!(to_offset_micros(true, u128::MAX), i64::MAX);
    assert_eq!(to_offset_micros(false, u128::MAX), -i64::MAX);
}
