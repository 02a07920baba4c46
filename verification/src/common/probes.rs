//! Readiness and liveness probes: what a service answers when asked whether
//! it is ready or healthy.

use vstd::prelude::*;
use vstd::string::*;

verus! {

/// A probe's answer: status, headers and body.
#[derive(Clone, Debug)]
pub struct ProbeReply {
    pub status: u16,
    pub headers: Vec<(String, String)>,
    pub body: String,
}

/// The header every probe answer carries.
pub open spec fn probe_headers() -> Seq<(Seq<char>, Seq<char>)> {
    seq![("X-Custom-Foo"@, "Bar"@)]
}

/// `r` answers with `status`, `body` and the probe header.
pub open spec fn probe_reply_is(r: ProbeReply, status: u16, body: Seq<char>) -> bool {
    &&& r.status == status
    &&& r.body@ == body
    &&& r.headers@.map_values(|p: (String, String)| (p.0@, p.1@)) == probe_headers()
}

fn probe_reply(status: u16, body: &str) -> (r: ProbeReply)
    ensures
        probe_reply_is(r, status, body@),
{
    let mut headers: Vec<(String, String)> = Vec::new();
    headers.push((String::from_str("X-Custom-Foo"), String::from_str("Bar")));
    let r = ProbeReply { status, headers, body: body.to_owned() };
    proof {
        assert(r.headers@.map_values(|p: (String, String)| (p.0@, p.1@)) =~= probe_headers());
    }
    r
}

/// `200 READY` when the service is ready, `503 NOT READY` otherwise.
pub fn ready_reply(ready: bool) -> (r: ProbeReply)
    ensures
        ready ==> probe_reply_is(r, 200, "READY"@),
        !ready ==> probe_reply_is(r, 503, "NOT READY"@),
{
    if ready {
        probe_reply(200, "READY")
    } else {
        probe_reply(503, "NOT READY")
    }
}

/// `200 HEALTHY` when the service is healthy, `503 NOT HEALTHY` otherwise.
pub fn healthy_reply(healthy: bool) -> (r: ProbeReply)
    ensures
        healthy ==> probe_reply_is(r, 200, "HEALTHY"@),
        !healthy ==> probe_reply_is(r, 503, "NOT HEALTHY"@),
{
    if healthy {
        probe_reply(200, "HEALTHY")
    } else {
        probe_reply(503, "NOT HEALTHY")
    }
}

} // verus!
