use healthcheck::{Body, Command, Config, Grace, HealthError, Request, Service, State, Transition};

fn grace(retry_count: u32) -> Grace {
    Grace::new(Some(100), Some(250), Some(retry_count), Some(5_000), Some(7_000))
}

fn probe(method: &str, url: &str, headers: Vec<(String, String)>, body: Body) -> Request {
    Request {
        method: method.to_string(),
        url: url.to_string(),
        headers,
        body,
    }
}

fn config_with(request: Request, grace: Grace) -> Config {
    Config {
        request,
        command: Command {
            command: "false".to_string(),
            working_dir: None,
        },
        grace,
    }
}

fn service(retry_count: u32) -> Service {
    let request = probe("GET", "http://example.test/health", vec![], Body::Empty);
    Service::new(config_with(request, grace(retry_count))).unwrap()
}

fn pair(name: &str, value: &str) -> (String, String) {
    (name.to_string(), value.to_string())
}

#[test]
fn defaults_have_documented_values() {
    assert_eq!(Grace::default_check_interval(), 1_000);
    assert_eq!(Grace::default_retry_count(), 3);
    assert_eq!(Grace::default_timeout(), 30_000);
    assert_eq!(Grace::default_wait_after_command(), 30_000);
}

#[test]
fn omitted_settings_take_defaults() {
    let g = Grace::new(None, None, None, None, None);
    assert_eq!(g.check_interval(), 1_000);
    assert_eq!(g.check_interval_failed(), 1_000);
    assert_eq!(g.retry_count(), 3);
    assert_eq!(g.timeout(), 30_000);
    assert_eq!(g.wait_after_command(), 30_000);
}

#[test]
fn failed_interval_follows_check_interval_when_unset() {
    let g = Grace::new(Some(250), None, Some(0), Some(1), Some(2));
    assert_eq!(g.check_interval(), 250);
    assert_eq!(g.check_interval_failed(), 250);
    assert_eq!(g.retry_count(), 0);
    assert_eq!(g.timeout(), 1);
    assert_eq!(g.wait_after_command(), 2);
}

#[test]
fn explicit_settings_are_kept() {
    let g = grace(4);
    assert_eq!(g.check_interval(), 100);
    assert_eq!(g.check_interval_failed(), 250);
    assert_eq!(g.retry_count(), 4);
    assert_eq!(g.timeout(), 5_000);
    assert_eq!(g.wait_after_command(), 7_000);
}

#[test]
fn get_request_without_body_or_headers() {
    let client = reqwest::Client::new();
    let r = probe("GET", "http://example.test/health", vec![], Body::Empty);
    let req = r.make_request(&client, None).unwrap();
    assert_eq!(req.method(), reqwest::Method::GET);
    assert_eq!(req.url().as_str(), "http://example.test/health");
    assert!(req.headers().is_empty());
    let body = req.body().and_then(|b| b.as_bytes()).unwrap_or(&[]);
    assert!(body.is_empty());
}

#[test]
fn missing_body_file_is_unreadable_and_counter_kept() {
    let mut s = service(3);
    s.check(false);
    assert_eq!(s.remaining_retries(), 2);
    let r = probe(
        "GET",
        "http://example.test/health",
        vec![],
        Body::File("/nonexistent/body.txt".to_string()),
    );
    assert_eq!(r.body.file_path(), Some(&"/nonexistent/body.txt".to_string()));
    let e = r.make_request(s.client(), None).unwrap_err();
    assert_eq!(e, HealthError::BodyUnreadable);
    assert_eq!(s.remaining_retries(), 2);
}

#[test]
fn file_body_uses_text_read() {
    let client = reqwest::Client::new();
    let r = probe("POST", "http://example.test/", vec![], Body::File("b.txt".to_string()));
    let req = r.make_request(&client, Some("payload".to_string())).unwrap();
    assert_eq!(req.method(), reqwest::Method::POST);
    assert_eq!(req.body().and_then(|b| b.as_bytes()), Some(&b"payload"[..]));
}

#[test]
fn string_body_and_headers_are_sent() {
    let client = reqwest::Client::new();
    let headers = vec![pair("X-Token", "a"), pair("x-token", "b"), pair("Accept", "text/plain")];
    let r = probe("PURGE", "http://example.test/x", headers, Body::String("hi".to_string()));
    let req = r.make_request(&client, None).unwrap();
    assert_eq!(req.method().as_str(), "PURGE");
    let all: Vec<&str> =
        req.headers().get_all("x-token").iter().map(|v| v.to_str().unwrap()).collect();
    assert_eq!(all, vec!["a", "b"]);
    assert_eq!(req.headers().get("accept").unwrap(), "text/plain");
    assert_eq!(req.body().and_then(|b| b.as_bytes()), Some(&b"hi"[..]));
}

#[test]
fn invalid_method_is_refused() {
    let client = reqwest::Client::new();
    for m in ["", "GE T", "GET\n", "G\u{e9}T"] {
        let r = probe(m, "http://example.test/", vec![], Body::Empty);
        assert_eq!(r.make_request(&client, None).unwrap_err(), HealthError::InvalidMethod);
    }
}

#[test]
fn invalid_method_is_reported_before_headers() {
    let client = reqwest::Client::new();
    let r = probe("BAD METHOD", "http://example.test/", vec![pair("bad name", "v")], Body::Empty);
    assert_eq!(r.make_request(&client, None).unwrap_err(), HealthError::InvalidMethod);
}

#[test]
fn invalid_header_name_is_refused() {
    let client = reqwest::Client::new();
    let r = probe("GET", "http://example.test/", vec![pair("ok", "v"), pair("bad name", "v")], Body::Empty);
    assert_eq!(r.make_request(&client, None).unwrap_err(), HealthError::InvalidHeader);
    let r = probe("GET", "http://example.test/", vec![pair("", "v")], Body::Empty);
    assert_eq!(r.make_request(&client, None).unwrap_err(), HealthError::InvalidHeader);
}

#[test]
fn invalid_header_value_is_refused() {
    let client = reqwest::Client::new();
    let r = probe("GET", "http://example.test/", vec![pair("x-a", "line\nbreak")], Body::Empty);
    assert_eq!(r.make_request(&client, None).unwrap_err(), HealthError::InvalidHeader);
}

#[test]
fn header_value_accepts_tab_and_non_ascii() {
    let client = reqwest::Client::new();
    let r = probe("GET", "http://example.test/", vec![pair("x-a", "caf\u{e9}\tok")], Body::Empty);
    let req = r.make_request(&client, None).unwrap();
    assert_eq!(req.headers().get("x-a").unwrap().as_bytes(), "caf\u{e9}\tok".as_bytes());
}

#[test]
fn header_error_is_reported_before_body() {
    let client = reqwest::Client::new();
    let r = probe("GET", "http://example.test/", vec![pair("x-a", "\u{7f}")], Body::File("f".to_string()));
    assert_eq!(r.make_request(&client, None).unwrap_err(), HealthError::InvalidHeader);
}

#[test]
fn malformed_url_is_refused_by_client() {
    let client = reqwest::Client::new();
    let r = probe("GET", "not a url", vec![], Body::Empty);
    assert_eq!(r.make_request(&client, None).unwrap_err(), HealthError::InvalidRequest);
}

#[test]
fn body_resolution() {
    assert_eq!(Body::Empty.as_body(Some("x".to_string())).unwrap(), "");
    assert_eq!(Body::String("s".to_string()).as_body(None).unwrap(), "s");
    assert_eq!(Body::File("p".to_string()).as_body(Some("t".to_string())).unwrap(), "t");
    assert_eq!(Body::File("p".to_string()).as_body(None).unwrap_err(), HealthError::BodyUnreadable);
    assert_eq!(Body::Empty.file_path(), None);
}

#[test]
fn new_service_has_full_budget() {
    let s = service(5);
    assert_eq!(s.remaining_retries(), 5);
    assert_eq!(s.config().grace.retry_count(), 5);
}

#[test]
fn init_goes_to_checking() {
    let mut s = service(3);
    let t = s.init();
    assert_eq!(t, Transition { next: State::Checking, sleep_ms: None });
    assert_eq!(s.remaining_retries(), 3);
}

#[test]
fn three_failures_then_remediation() {
    let mut s = service(3);
    let mut seen = vec![];
    let mut states = vec![];
    for _ in 0..4 {
        seen.push(s.remaining_retries());
        states.push(s.check(false).next);
    }
    assert_eq!(seen, vec![3, 2, 1, 0]);
    assert_eq!(states, vec![State::Checking, State::Checking, State::Checking, State::Failed]);
    assert_eq!(s.remaining_retries(), 3);
}

#[test]
fn failure_budget_of_five() {
    let mut s = service(5);
    for i in 0..5 {
        let t = s.check(false);
        assert_eq!(t.next, State::Checking);
        assert_eq!(s.remaining_retries(), 4 - i);
    }
    assert_eq!(s.check(false).next, State::Failed);
    assert_eq!(s.remaining_retries(), 5);
}

#[test]
fn zero_retries_remediates_on_first_failure() {
    let mut s = service(0);
    assert_eq!(s.check(false), Transition { next: State::Failed, sleep_ms: None });
    assert_eq!(s.remaining_retries(), 0);
}

#[test]
fn success_restores_budget() {
    let mut s = service(3);
    s.check(false);
    s.check(false);
    assert_eq!(s.remaining_retries(), 1);
    assert_eq!(s.check(true), Transition { next: State::Checking, sleep_ms: Some(100) });
    assert_eq!(s.remaining_retries(), 3);
    for _ in 0..3 {
        assert_eq!(s.check(false).next, State::Checking);
    }
    assert_eq!(s.check(false).next, State::Failed);
}

#[test]
fn sleeps_follow_policy() {
    let mut s = service(2);
    assert_eq!(s.check(true).sleep_ms, Some(100));
    assert_eq!(s.check(false).sleep_ms, Some(250));
    assert_eq!(s.check(false).sleep_ms, Some(250));
    assert_eq!(s.check(false).sleep_ms, None);
    assert_eq!(s.failed(true).sleep_ms, None);
    assert_eq!(s.grace_waiting(), Transition { next: State::Checking, sleep_ms: Some(7_000) });
}

#[test]
fn failed_interval_defaults_in_service() {
    let request = probe("GET", "http://example.test/health", vec![], Body::Empty);
    let g = Grace::new(Some(40), None, Some(1), None, None);
    let mut s = Service::new(config_with(request, g)).unwrap();
    assert_eq!(s.check(false).sleep_ms, Some(40));
}

#[test]
fn remediation_outcome_does_not_matter() {
    for ok in [true, false] {
        let mut s = service(3);
        for _ in 0..4 {
            s.check(false);
        }
        assert_eq!(s.remaining_retries(), 3);
        assert_eq!(s.failed(ok), Transition { next: State::GraceWaiting, sleep_ms: None });
        assert_eq!(s.remaining_retries(), 3);
        assert_eq!(s.grace_waiting().next, State::Checking);
        assert_eq!(s.remaining_retries(), 3);
    }
}

#[test]
fn url_without_host_is_refused_by_client() {
    let client = reqwest::Client::new();
    let r = probe("GET", "mailto:ops@example.test", vec![], Body::Empty);
    assert_eq!(r.make_request(&client, None).unwrap_err(), HealthError::InvalidRequest);
}

#[test]
fn url_error_is_reported_after_body() {
    let client = reqwest::Client::new();
    let r = probe("GET", "not a url", vec![], Body::File("missing".to_string()));
    assert_eq!(r.make_request(&client, None).unwrap_err(), HealthError::BodyUnreadable);
}

#[test]
fn accepted_url_builds_request() {
    let client = reqwest::Client::new();
    let headers = vec![pair("x-a", "1")];
    let r = probe("DELETE", "https://user:pw@example.test:8443/p?q=1", headers, Body::String("b".to_string()));
    let req = r.make_request(&client, None).unwrap();
    assert_eq!(req.method(), reqwest::Method::DELETE);
    assert_eq!(req.url().host_str(), Some("example.test"));
    assert_eq!(req.url().port(), Some(8443));
    assert_eq!(req.headers().get("x-a").unwrap(), "1");
    assert!(req.headers().get("authorization").is_some());
    assert_eq!(req.body().and_then(|b| b.as_bytes()), Some(&b"b"[..]));
}
