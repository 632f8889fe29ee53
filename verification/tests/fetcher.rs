use url_fetcher::decimal::u16_to_decimal;
use url_fetcher::fetch::body_read_error_message;
use url_fetcher::fetch::check_status;
use url_fetcher::fetch::client_build_error_message;
use url_fetcher::fetch::response_outcome;
use url_fetcher::fetch::transport_error_message;
use url_fetcher::fetch::user_agent;
use url_fetcher::fetch::validate_url;
use url_fetcher::fetch::FETCH_TIMEOUT_SECS;
use url_fetcher::greeting::greet;

#[test]
fn greet_formats_the_name() {
    assert_eq!(greet("World"), "Hello, World! You've been greeted from Rust!");
}

#[test]
fn greet_with_empty_name() {
    assert_eq!(greet(""), "Hello, ! You've been greeted from Rust!");
}

#[test]
fn validate_rejects_unparsable_input() {
    let r = validate_url("not a url");
    let m = r.err().expect("plain words are not an absolute URL");
    assert!(m.starts_with("Invalid URL: "), "got: {m}");
    assert!(m.len() > "Invalid URL: ".len(), "diagnostic missing: {m}");
}

#[test]
fn validate_rejects_empty_input() {
    let r = validate_url("");
    let m = r.err().expect("the empty string is not an absolute URL");
    assert!(m.starts_with("Invalid URL: "), "got: {m}");
}

#[test]
fn validate_rejects_file_scheme() {
    let r = validate_url("file:///etc/passwd");
    assert_eq!(r.err(), Some("Only http and https schemes are allowed".to_string()));
}

#[test]
fn validate_rejects_ftp_scheme() {
    let r = validate_url("ftp://host/x");
    assert_eq!(r.err(), Some("Only http and https schemes are allowed".to_string()));
}

#[test]
fn validate_accepts_http() {
    let p = validate_url("http://example.com/page").expect("http parses and is allowed");
    assert_eq!(p.scheme, "http");
}

#[test]
fn validate_accepts_https() {
    let p = validate_url("https://example.com").expect("https parses and is allowed");
    assert_eq!(p.scheme, "https");
}

#[test]
fn validate_normalizes_scheme_case() {
    // The parser, not this crate, lower-cases the scheme: an upper-case
    // spelling must still come back as the lower-case allowed scheme.
    let p = validate_url("HTTP://EXAMPLE.COM").expect("upper-case http still parses");
    assert_eq!(p.scheme, "http");
}

#[test]
fn success_status_returns_the_body() {
    let r = response_outcome(200, Ok("ok".to_string()));
    assert_eq!(r, Ok("ok".to_string()));
}

#[test]
fn failure_status_discards_the_body() {
    let r = response_outcome(404, Ok("secret".to_string()));
    let m = r.expect_err("404 is not a success");
    assert_eq!(m, "Request failed with status 404");
    assert!(!m.contains("secret"));
}

#[test]
fn unreadable_body_is_reported() {
    let r = response_outcome(200, Err("invalid byte sequence".to_string()));
    assert_eq!(r, Err("Failed to read response body: invalid byte sequence".to_string()));
}

#[test]
fn status_range_boundaries() {
    assert!(check_status(199).is_some());
    assert!(check_status(200).is_none());
    assert!(check_status(204).is_none());
    assert!(check_status(299).is_none());
    assert!(check_status(300).is_some());
    assert_eq!(check_status(500), Some("Request failed with status 500".to_string()));
}

#[test]
fn decimal_rendering_exact_values() {
    assert_eq!(u16_to_decimal(0), "0");
    assert_eq!(u16_to_decimal(7), "7");
    assert_eq!(u16_to_decimal(404), "404");
    assert_eq!(u16_to_decimal(65535), "65535");
}

#[test]
fn transport_failure_wording() {
    assert_eq!(
        transport_error_message("connection refused"),
        "Request failed: connection refused"
    );
}

#[test]
fn client_build_failure_wording() {
    assert_eq!(
        client_build_error_message("no TLS backend"),
        "Failed to build HTTP client: no TLS backend"
    );
}

#[test]
fn body_read_failure_wording() {
    assert_eq!(
        body_read_error_message("stream cut short"),
        "Failed to read response body: stream cut short"
    );
}

#[test]
fn same_url_is_classified_the_same_way() {
    let a = validate_url("https://example.com/a").is_ok();
    let b = validate_url("https://example.com/a").is_ok();
    assert_eq!(a, b);
    let c = validate_url("gopher://example.com").is_ok();
    let d = validate_url("gopher://example.com").is_ok();
    assert_eq!(c, d);
}

#[test]
fn same_status_is_classified_the_same_way() {
    // A deterministic endpoint may still vary its body text between calls;
    // the success/failure classification must not vary with it.
    let first = response_outcome(200, Ok("monday".to_string()));
    let second = response_outcome(200, Ok("tuesday".to_string()));
    assert_eq!(first.is_ok(), second.is_ok());
    let third = response_outcome(503, Ok("monday".to_string()));
    let fourth = response_outcome(503, Ok("tuesday".to_string()));
    assert_eq!(third.is_ok(), fourth.is_ok());
    assert_eq!(third, fourth);
}

#[test]
fn request_configuration_constants() {
    assert_eq!(FETCH_TIMEOUT_SECS, 20);
    assert_eq!(user_agent(), "OpenChat-WebSearch/1.0");
}
