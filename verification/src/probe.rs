//! Liveness prober.
//!
//! When the log is idle past the threshold, the health loop sends one
//! synthetic completion request to the backend.  The library states what
//! that request is — target URL and recognizable payload, so operators can
//! tell synthetic traffic apart in the backend's own logs — and how the
//! outcome maps to a verdict.  The request itself is network I/O and is
//! performed outside the library under a bounded timeout; a timeout or
//! transport error comes back as no status at all.
use vstd::prelude::*;

verus! {

/// The URL of the synthetic completion request.
pub fn probe_url(authority: &String) -> (r: String)
    ensures
        r@ == "http://"@ + authority@ + "/v1/chat/completions"@,
{
    let mut r = String::from_str("http://");
    r.append(authority.as_str());
    r.append("/v1/chat/completions");
    r
}

/// The payload of the synthetic completion request.  The marker
/// `<server-health>` makes the traffic recognizable as synthetic.
pub fn probe_request_body() -> (r: String)
    ensures
        r@
            == "{\"messages\":[{\"role\":\"user\",\"content\":\"Who are you? <server-health>\"}],\"model\":\"Phi-3-mini-4k-instruct\",\"stream\":false}"@,
{
    String::from_str(
        "{\"messages\":[{\"role\":\"user\",\"content\":\"Who are you? <server-health>\"}],\"model\":\"Phi-3-mini-4k-instruct\",\"stream\":false}",
    )
}

/// Verdict of one probe attempt: healthy exactly on a success status.
/// A transport error or timeout arrives as `None` and is unhealthy.
pub fn probe_verdict(status: Option<u16>) -> (r: bool)
    ensures
        r <==> (status matches Some(c) && 200 <= c < 300),
{
    match status {
        Some(c) => 200 <= c && c < 300,
        None => false,
    }
}

} // verus!
