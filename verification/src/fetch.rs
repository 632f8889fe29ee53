//! The URL fetcher's decisions, verified: validation of a candidate URL,
//! classification of an HTTP response by its status code, and the exact
//! wording of every error the fetcher can report.
//!
//! A fetch passes five gates in order: parse the URL, allow only `http` and
//! `https`, build the client, send the request, and read the body of a
//! success response. Parsing is done here, through `reqwest`'s URL parser.
//! The client, the request and the body read are network I/O and belong to
//! the caller, which feeds each outcome (a build or transport error's
//! description, the status code, the body text or its read failure) back
//! into the functions below; they decide, and they word the report.

use vstd::prelude::*;
use vstd::string::StringExecFns;
use crate::decimal::decimal_digits;
use crate::decimal::u16_to_decimal;

verus! {

/// reqwest's URL type, declared so that a parsed URL can be carried through
/// to the caller that issues the request. Opaque: nothing is stated of it.
#[verifier::external_type_specification]
#[verifier::external_body]
pub struct ExUrl(reqwest::Url);

/// What `reqwest::Url::parse` decides for an input: `None` where the input
/// does not parse as an absolute URL, otherwise the parsed URL's scheme
/// (lower-cased ASCII, as the `url` crate documents `Url::scheme`).
pub uninterp spec fn url_scheme_of(s: Seq<char>) -> Option<Seq<char>>;

/// A successfully parsed URL: the scheme as a plain string, for the verified
/// scheme check, beside the parsed value itself, for issuing the request.
pub struct ParsedUrl {
    pub scheme: String,
    pub url: reqwest::Url,
}

/// Relies on `reqwest::Url::parse` (the `url` crate) and `Url::scheme`:
/// whether a string parses, and the scheme of the result, depend on the
/// string alone; on failure the error's `Display` is the parser's diagnostic.
#[verifier::external_body]
fn parse_url(s: &str) -> (r: Result<ParsedUrl, String>)
    ensures
        r is Ok <==> url_scheme_of(s@) is Some,
        r matches Ok(p) ==> Some(p.scheme@) == url_scheme_of(s@),
{
    match reqwest::Url::parse(s) {
        Ok(u) => {
            let scheme = u.scheme().to_owned();
            Ok(ParsedUrl { scheme, url: u })
        },
        Err(e) => Err(format!("{e}")),
    }
}

/// The scheme allow-list: only plain web schemes may produce a request.
pub open spec fn scheme_ok(s: Seq<char>) -> bool {
    s == "http"@ || s == "https"@
}

/// Whether `s` is one of the allowed schemes.
pub fn scheme_allowed(s: &String) -> (r: bool)
    ensures
        r == scheme_ok(s@),
{
    let http = String::from_str("http");
    let https = String::from_str("https");
    *s == http || *s == https
}

/// The prefix of every invalid-URL report; the parser's diagnostic follows.
pub open spec fn invalid_url_prefix() -> Seq<char> {
    "Invalid URL: "@
}

/// The fixed report for a URL whose scheme is outside the allow-list.
pub open spec fn scheme_error_message() -> Seq<char> {
    "Only http and https schemes are allowed"@
}

/// Whether `url` passes both validation gates, so a request may be issued.
pub open spec fn request_allowed(url: Seq<char>) -> bool {
    url_scheme_of(url) matches Some(s) && scheme_ok(s)
}

/// The first two gates of a fetch: parse the candidate URL, then allow only
/// `http` and `https`. Returns `Ok` exactly where a request may be issued;
/// no network operation is attempted here, whatever the outcome.
pub fn validate_url(url: &str) -> (r: Result<ParsedUrl, String>)
    ensures
        r is Ok <==> request_allowed(url@),
        r matches Ok(p) ==> Some(p.scheme@) == url_scheme_of(url@) && scheme_ok(p.scheme@),
        url_scheme_of(url@) is None ==> (r matches Err(m) && invalid_url_prefix().is_prefix_of(
            m@,
        )),
        url_scheme_of(url@) matches Some(s) && !scheme_ok(s) ==> (r matches Err(m) && m@
            == scheme_error_message()),
{
    match parse_url(url) {
        Err(detail) => {
            let mut m = String::from_str("Invalid URL: ");
            m.append(detail.as_str());
            proof {
                assert(invalid_url_prefix().is_prefix_of(m@));
            }
            Err(m)
        },
        Ok(p) => {
            if scheme_allowed(&p.scheme) {
                Ok(p)
            } else {
                Err(String::from_str("Only http and https schemes are allowed"))
            }
        },
    }
}

/// Whether an HTTP status code counts as success.
pub open spec fn status_success(status: nat) -> bool {
    200 <= status <= 299
}

/// The report for a response whose status is outside the success range; it
/// carries the numeric code.
pub open spec fn status_error_message(status: nat) -> Seq<char> {
    "Request failed with status "@ + decimal_digits(status)
}

/// The fifth gate of a fetch: `None` for a success status, otherwise the
/// exact status report. The response body plays no part in the decision.
pub fn check_status(status: u16) -> (r: Option<String>)
    ensures
        r is None <==> status_success(status as nat),
        r matches Some(m) ==> m@ == status_error_message(status as nat),
{
    if 200 <= status && status <= 299 {
        None
    } else {
        let mut m = String::from_str("Request failed with status ");
        let digits = u16_to_decimal(status);
        m.append(digits.as_str());
        Some(m)
    }
}

/// The report for a client that could not be built, around the underlying
/// cause's description.
pub open spec fn client_build_error_of(detail: Seq<char>) -> Seq<char> {
    "Failed to build HTTP client: "@ + detail
}

/// Words the client-build failure report for the caller's description.
pub fn client_build_error_message(detail: &str) -> (r: String)
    ensures
        r@ == client_build_error_of(detail@),
{
    let mut m = String::from_str("Failed to build HTTP client: ");
    m.append(detail);
    m
}

/// The report for a request that failed in transport (DNS, connection, TLS,
/// timeout), around the underlying cause's description.
pub open spec fn transport_error_of(detail: Seq<char>) -> Seq<char> {
    "Request failed: "@ + detail
}

/// Words the transport failure report for the caller's description.
pub fn transport_error_message(detail: &str) -> (r: String)
    ensures
        r@ == transport_error_of(detail@),
{
    let mut m = String::from_str("Request failed: ");
    m.append(detail);
    m
}

/// The report for a success response whose body could not be decoded as
/// text, around the underlying cause's description.
pub open spec fn body_read_error_of(detail: Seq<char>) -> Seq<char> {
    "Failed to read response body: "@ + detail
}

/// Words the body-read failure report for the caller's description.
pub fn body_read_error_message(detail: &str) -> (r: String)
    ensures
        r@ == body_read_error_of(detail@),
{
    let mut m = String::from_str("Failed to read response body: ");
    m.append(detail);
    m
}

/// The view of a body-read or whole-fetch outcome: both sides as strings.
pub open spec fn text_view(b: Result<String, String>) -> Result<Seq<char>, Seq<char>> {
    match b {
        Ok(t) => Ok(t@),
        Err(d) => Err(d@),
    }
}

/// The last two gates of a fetch, as one function of the response: a
/// non-success status is reported with its code and the body is discarded;
/// on a success status the body text is the result, or its read failure is
/// reported.
pub open spec fn response_outcome_spec(status: nat, body: Result<Seq<char>, Seq<char>>) -> Result<
    Seq<char>,
    Seq<char>,
> {
    if !status_success(status) {
        Err(status_error_message(status))
    } else {
        match body {
            Ok(t) => Ok(t),
            Err(d) => Err(body_read_error_of(d)),
        }
    }
}

/// Classifies a response that came back: `status` is its code, `body` the
/// body text or the description of its read failure. Follows
/// `response_outcome_spec` exactly.
pub fn response_outcome(status: u16, body: Result<String, String>) -> (r: Result<String, String>)
    ensures
        text_view(r) == response_outcome_spec(status as nat, text_view(body)),
{
    match check_status(status) {
        Some(m) => Err(m),
        None => match body {
            Ok(t) => Ok(t),
            Err(d) => Err(body_read_error_message(d.as_str())),
        },
    }
}

/// The whole-request timeout the fetcher is configured with, in seconds.
pub const FETCH_TIMEOUT_SECS: u64 = 20;

/// The fixed identifying user-agent the fetcher sends.
pub fn user_agent() -> (r: String)
    ensures
        r@ == "OpenChat-WebSearch/1.0"@,
{
    String::from_str("OpenChat-WebSearch/1.0")
}

/// Whether one whole fetch succeeds, given what the network did: validation
/// must pass, the transport must not fail, the status must be a success and
/// the body must be readable. `net` is `Err` with the transport error's
/// description where the request did not complete, otherwise the status code
/// with the body-read outcome.
pub open spec fn fetch_succeeds(
    url: Seq<char>,
    net: Result<(nat, Result<Seq<char>, Seq<char>>), Seq<char>>,
) -> bool {
    &&& request_allowed(url)
    &&& net matches Ok(r) && response_outcome_spec(r.0, r.1) is Ok
}

/// Fetching the same URL twice is classified the same way both times when
/// the endpoint behaves deterministically: where the two calls see the same
/// transport behaviour, the same status code and the same body readability,
/// they both succeed or both fail — even where the body text itself differs
/// between the calls. Validation needs no such assumption: it is a function
/// of the URL alone.
pub proof fn lemma_fetch_idempotent(
    url: Seq<char>,
    net1: Result<(nat, Result<Seq<char>, Seq<char>>), Seq<char>>,
    net2: Result<(nat, Result<Seq<char>, Seq<char>>), Seq<char>>,
)
    requires
        net1 is Ok <==> net2 is Ok,
        net1 is Ok && net2 is Ok ==> net1->Ok_0.0 == net2->Ok_0.0 && (net1->Ok_0.1 is Ok
            <==> net2->Ok_0.1 is Ok),
    ensures
        fetch_succeeds(url, net1) == fetch_succeeds(url, net2),
{
}

} // verus!
