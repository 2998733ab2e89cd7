//! The agent's own status reports, served by a local liveness endpoint
//! outside the library: a short health payload, and a fuller one with the
//! counter snapshot. The agent reports `ok` while the channel to the
//! control plane is up and `degraded` otherwise.

use vstd::prelude::*;
use vstd::string::StringExecFns;

use crate::text::{json_quoted, json_quote, u64_dec, u64_to_dec};

verus! {

/// The agent's own liveness label: `ok` while connected, else `degraded`.
pub open spec fn spec_agent_status(connected: bool) -> Seq<char> {
    if connected {
        "ok"@
    } else {
        "degraded"@
    }
}

pub fn agent_status(connected: bool) -> (r: &'static str)
    ensures
        r@ == spec_agent_status(connected),
{
    if connected {
        "ok"
    } else {
        "degraded"
    }
}

pub open spec fn spec_bool_json(b: bool) -> Seq<char> {
    if b {
        "true"@
    } else {
        "false"@
    }
}

/// The short health payload: status, version, the connected flag, uptime.
pub open spec fn spec_health_payload(
    connected: bool,
    agent_version: Seq<char>,
    uptime_seconds: u64,
) -> Seq<char> {
    "{\"status\":"@ + json_quoted(spec_agent_status(connected)) + ",\"agent_version\":"@
        + json_quoted(agent_version) + ",\"ws_connected\":"@ + spec_bool_json(connected)
        + ",\"uptime_seconds\":"@ + u64_dec(uptime_seconds as nat) + "}"@
}

/// A snapshot of the counters the fuller status payload reports.
pub struct StatusSnapshot {
    /// Frames delivered to the control plane.
    pub sent: u64,
    /// Frames currently held by the disconnection buffer.
    pub buffered: u64,
    /// Frames the buffer evicted.
    pub dropped: u64,
    /// Frames ever pushed into the buffer.
    pub total_buffered: u64,
    /// Commands handled to a successful result.
    pub handled: u64,
}

/// The fuller status payload: the health payload's fields plus the counter
/// snapshot.
pub open spec fn spec_status_payload(
    connected: bool,
    agent_version: Seq<char>,
    uptime_seconds: u64,
    s: StatusSnapshot,
) -> Seq<char> {
    "{\"status\":"@ + json_quoted(spec_agent_status(connected)) + ",\"agent_version\":"@
        + json_quoted(agent_version) + ",\"ws_connected\":"@ + spec_bool_json(connected)
        + ",\"uptime_seconds\":"@ + u64_dec(uptime_seconds as nat) + ",\"metrics\":{\"sent\":"@
        + u64_dec(s.sent as nat) + ",\"buffered\":"@ + u64_dec(s.buffered as nat) + ",\"dropped\":"@
        + u64_dec(s.dropped as nat) + ",\"total_buffered\":"@ + u64_dec(s.total_buffered as nat)
        + "},\"commands\":{\"handled\":"@ + u64_dec(s.handled as nat) + "}}"@
}

fn append_common_fields(r: &mut String, connected: bool, agent_version: &str, uptime_seconds: u64)
    ensures
        final(r)@ == old(r)@ + "{\"status\":"@ + json_quoted(spec_agent_status(connected))
            + ",\"agent_version\":"@ + json_quoted(agent_version@) + ",\"ws_connected\":"@
            + spec_bool_json(connected) + ",\"uptime_seconds\":"@ + u64_dec(uptime_seconds as nat),
{
    r.append("{\"status\":");
    let q = json_quote(agent_status(connected));
    r.append(q.as_str());
    r.append(",\"agent_version\":");
    let v = json_quote(agent_version);
    r.append(v.as_str());
    r.append(",\"ws_connected\":");
    if connected {
        r.append("true");
    } else {
        r.append("false");
    }
    r.append(",\"uptime_seconds\":");
    let d = u64_to_dec(uptime_seconds);
    r.append(d.as_str());
    proof {
        assert(final(r)@ =~= old(r)@ + "{\"status\":"@ + json_quoted(spec_agent_status(connected))
            + ",\"agent_version\":"@ + json_quoted(agent_version@) + ",\"ws_connected\":"@
            + spec_bool_json(connected) + ",\"uptime_seconds\":"@ + u64_dec(
            uptime_seconds as nat,
        ));
    }
}

/// Serializes the short health payload: see [`spec_health_payload`].
pub fn health_payload(connected: bool, agent_version: &str, uptime_seconds: u64) -> (r: String)
    ensures
        r@ == spec_health_payload(connected, agent_version@, uptime_seconds),
{
    let mut r = String::new();
    append_common_fields(&mut r, connected, agent_version, uptime_seconds);
    r.append("}");
    proof {
        assert(r@ =~= spec_health_payload(connected, agent_version@, uptime_seconds));
    }
    r
}

/// Serializes the fuller status payload: see [`spec_status_payload`].
pub fn status_payload(connected: bool, agent_version: &str, uptime_seconds: u64, s: &StatusSnapshot)
    -> (r: String)
    ensures
        r@ == spec_status_payload(connected, agent_version@, uptime_seconds, *s),
{
    let mut r = String::new();
    append_common_fields(&mut r, connected, agent_version, uptime_seconds);
    r.append(",\"metrics\":{\"sent\":");
    let d1 = u64_to_dec(s.sent);
    r.append(d1.as_str());
    r.append(",\"buffered\":");
    let d2 = u64_to_dec(s.buffered);
    r.append(d2.as_str());
    r.append(",\"dropped\":");
    let d3 = u64_to_dec(s.dropped);
    r.append(d3.as_str());
    r.append(",\"total_buffered\":");
    let d4 = u64_to_dec(s.total_buffered);
    r.append(d4.as_str());
    r.append("},\"commands\":{\"handled\":");
    let d5 = u64_to_dec(s.handled);
    r.append(d5.as_str());
    r.append("}}");
    proof {
        assert(r@ =~= spec_status_payload(connected, agent_version@, uptime_seconds, *s));
    }
    r
}

} // verus!
