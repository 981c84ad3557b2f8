use retry_policy::AttemptOutcome;
use retry_policy::RetryConfig;

fn response_with_status(status: u16) -> http::Response<String> {
    let mut response = http::Response::new(String::new());
    *response.status_mut() = http::StatusCode::from_u16(status).unwrap();
    response
}

fn expect_bounded_count(decision: Option<RetryConfig>, expected_remaining: usize) {
    match decision {
        Some(RetryConfig::BoundedCount(remaining)) => assert_eq!(remaining, expected_remaining),
        _ => panic!("expected a retry with a plain bounded budget"),
    }
}

fn expect_with_statuses(
    decision: Option<RetryConfig>,
    expected_remaining: usize,
    expected_statuses: &[u16],
) {
    match decision {
        Some(RetryConfig::BoundedCountWithStatuses(remaining, statuses)) => {
            assert_eq!(remaining, expected_remaining);
            assert_eq!(statuses, expected_statuses);
        }
        _ => panic!("expected a retry with an allow-list budget"),
    }
}

#[test]
fn bounded_count_retries_on_500() {
    let decision = RetryConfig::BoundedCount(3).decide(AttemptOutcome::Response(500));
    expect_bounded_count(decision, 2);
}

#[test]
fn bounded_count_retries_across_server_error_range() {
    expect_bounded_count(RetryConfig::BoundedCount(1).decide(AttemptOutcome::Response(599)), 0);
    assert!(RetryConfig::BoundedCount(1).decide(AttemptOutcome::Response(499)).is_none());
    assert!(RetryConfig::BoundedCount(1).decide(AttemptOutcome::Response(600)).is_none());
}

#[test]
fn bounded_count_zero_never_retries() {
    let exhausted = RetryConfig::BoundedCount(0);
    assert!(exhausted.decide(AttemptOutcome::Response(500)).is_none());
    assert!(exhausted.decide(AttemptOutcome::Response(429)).is_none());
    assert!(exhausted.decide(AttemptOutcome::TransportError).is_none());
}

#[test]
fn bounded_count_does_not_retry_on_404() {
    assert!(RetryConfig::BoundedCount(5).decide(AttemptOutcome::Response(404)).is_none());
}

#[test]
fn bounded_count_retries_on_429() {
    let decision = RetryConfig::BoundedCount(1).decide(AttemptOutcome::Response(429));
    expect_bounded_count(decision, 0);
}

#[test]
fn allow_list_retries_on_listed_status() {
    let policy = RetryConfig::BoundedCountWithStatuses(2, &[418]);
    expect_with_statuses(policy.decide(AttemptOutcome::Response(418)), 1, &[418]);
}

#[test]
fn allow_list_retries_on_server_error() {
    let policy = RetryConfig::BoundedCountWithStatuses(2, &[418]);
    expect_with_statuses(policy.decide(AttemptOutcome::Response(503)), 1, &[418]);
}

#[test]
fn allow_list_does_not_retry_on_404() {
    let policy = RetryConfig::BoundedCountWithStatuses(2, &[418]);
    assert!(policy.decide(AttemptOutcome::Response(404)).is_none());
}

#[test]
fn allow_list_does_not_special_case_429() {
    let policy = RetryConfig::BoundedCountWithStatuses(2, &[418]);
    assert!(policy.decide(AttemptOutcome::Response(429)).is_none());
}

#[test]
fn no_retry_never_retries() {
    assert!(RetryConfig::NoRetry.decide(AttemptOutcome::Response(500)).is_none());
    assert!(RetryConfig::NoRetry.decide(AttemptOutcome::Response(429)).is_none());
    assert!(RetryConfig::NoRetry.decide(AttemptOutcome::TransportError).is_none());
}

#[test]
fn transport_error_spends_budget_like_a_server_error() {
    expect_bounded_count(RetryConfig::BoundedCount(2).decide(AttemptOutcome::TransportError), 1);
    let policy = RetryConfig::BoundedCountWithStatuses(1, &[418]);
    expect_with_statuses(policy.decide(AttemptOutcome::TransportError), 0, &[418]);
    assert!(RetryConfig::BoundedCount(0).decide(AttemptOutcome::TransportError).is_none());
}

#[test]
fn budget_of_two_stops_after_two_retries() {
    let first = RetryConfig::BoundedCount(2).decide(AttemptOutcome::Response(500));
    expect_bounded_count(first.clone(), 1);
    let second = first.unwrap().decide(AttemptOutcome::Response(502));
    expect_bounded_count(second.clone(), 0);
    let third = second.unwrap().decide(AttemptOutcome::Response(500));
    assert!(third.is_none());
}

#[test]
fn retry_reads_the_status_of_a_real_response() {
    let request = http::Request::new(String::new());
    let policy = RetryConfig::BoundedCount(1);
    let server_error = response_with_status(500);
    expect_bounded_count(policy.retry::<String, String, ()>(&request, Ok(&server_error)), 0);
    let success = response_with_status(200);
    assert!(policy.retry::<String, String, ()>(&request, Ok(&success)).is_none());
}

#[test]
fn retry_counts_a_transport_error_against_the_budget() {
    let request = http::Request::new(String::new());
    let transport_error = ();
    expect_bounded_count(
        RetryConfig::BoundedCount(2).retry::<String, String, ()>(&request, Err(&transport_error)),
        1,
    );
    assert!(
        RetryConfig::BoundedCount(0)
            .retry::<String, String, ()>(&request, Err(&transport_error))
            .is_none()
    );
}

#[test]
fn no_retry_clone_request_returns_nothing() {
    let request = http::Request::builder()
        .method("POST")
        .uri("https://example.com/resource")
        .body(String::from("payload"))
        .unwrap();
    assert!(RetryConfig::NoRetry.clone_request(&request).is_none());
}

#[test]
fn clone_request_preserves_the_request_metadata() {
    let original = http::Request::builder()
        .method("POST")
        .uri("https://example.com/a/b?c=d")
        .version(http::Version::HTTP_2)
        .header("x-one", "1")
        .header("x-two", "2")
        .header("x-one", "3")
        .body(String::from("hello"))
        .unwrap();

    let copy = RetryConfig::BoundedCount(2).clone_request(&original).unwrap();

    assert_eq!(copy.method(), original.method());
    assert_eq!(copy.uri(), original.uri());
    assert_eq!(copy.version(), original.version());
    assert_eq!(copy.headers(), original.headers());
    assert_eq!(copy.body(), original.body());

    let ones: Vec<&str> = copy
        .headers()
        .get_all("x-one")
        .iter()
        .map(|value| value.to_str().unwrap())
        .collect();
    assert_eq!(ones, vec!["1", "3"]);
}

#[test]
fn clone_request_produces_a_distinct_object() {
    let original = http::Request::builder()
        .method("GET")
        .uri("https://example.com/")
        .header("x-one", "1")
        .body(String::from("body"))
        .unwrap();

    let mut copy = RetryConfig::BoundedCountWithStatuses(1, &[418])
        .clone_request(&original)
        .unwrap();
    copy.headers_mut()
        .insert("x-two", http::HeaderValue::from_static("2"));
    copy.body_mut().push_str(" of the copy");

    assert!(original.headers().get("x-two").is_none());
    assert_eq!(original.body(), "body");
    assert_eq!(copy.body(), "body of the copy");
}
