//! The health probe: the request sent to the server and the test of its
//! response.
//!
//! The shell asks `GET /api/health` on the loopback address and accepts the
//! server as ready when the response carries the application's name in a
//! JSON `"app"` field, written with or without a space after the colon.

use vstd::prelude::*;

use crate::text::contains_substring;
use crate::text::dec_digits;
use crate::text::has_substring;
use crate::text::u16_to_dec;

verus! {

/// The HTTP request that probes the health endpoint on the given port.
pub open spec fn health_request_spec(port: u16) -> Seq<char> {
    "GET /api/health HTTP/1.1\r\nHost: 127.0.0.1:"@ + dec_digits(port as nat)
        + "\r\nConnection: close\r\n\r\n"@
}

/// Builds the health request for the given port.
pub fn health_request(port: u16) -> (req: String)
    ensures
        req@ == health_request_spec(port),
{
    let mut req = String::from_str("GET /api/health HTTP/1.1\r\nHost: 127.0.0.1:");
    let port_dec = u16_to_dec(port);
    req.append(port_dec.as_str());
    req.append("\r\nConnection: close\r\n\r\n");
    proof {
        assert(req@ =~= health_request_spec(port));
    }
    req
}

/// The JSON fragment that names the application, without a space after the
/// colon.
pub open spec fn app_marker(app: Seq<char>) -> Seq<char> {
    "\"app\":\""@ + app + "\""@
}

/// The same fragment with one space after the colon.
pub open spec fn app_marker_spaced(app: Seq<char>) -> Seq<char> {
    "\"app\": \""@ + app + "\""@
}

/// The response announces the expected application: it contains the `"app"`
/// field with the expected name, in either spacing.
pub open spec fn health_response_ok(response: Seq<char>, app: Seq<char>) -> bool {
    has_substring(response, app_marker(app)) || has_substring(response, app_marker_spaced(app))
}

/// Decides whether a health response announces the expected application.
pub fn health_response_matches(response: &str, expected_app: &str) -> (ok: bool)
    ensures
        ok == health_response_ok(response@, expected_app@),
{
    let mut marker = String::from_str("\"app\":\"");
    marker.append(expected_app);
    marker.append("\"");
    proof {
        assert(marker@ =~= app_marker(expected_app@));
    }
    if contains_substring(response, marker.as_str()) {
        return true;
    }
    let mut spaced = String::from_str("\"app\": \"");
    spaced.append(expected_app);
    spaced.append("\"");
    proof {
        assert(spaced@ =~= app_marker_spaced(expected_app@));
    }
    contains_substring(response, spaced.as_str())
}

} // verus!
