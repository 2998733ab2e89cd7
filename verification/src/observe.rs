//! The metric producer's decision logic: selecting the watched target
//! process and assembling the per-tick observation frame.
//!
//! Sampling itself (host counters, process tables, HTTP probes) happens
//! outside the library; what arrives here are plain values, with each
//! fractional reading already rendered as a decimal numeral. The frame
//! text, its escaping and its shape are verified.

use vstd::prelude::*;
use vstd::string::StringExecFns;

use crate::health::HealthStatus;
use crate::text::{contains_sub, json_quote, json_quoted, seq_contains, u64_dec, u64_to_dec};

verus! {

// ---------------------------------------------------------------------------
// Target-process matching
// ---------------------------------------------------------------------------

/// What std's `str::to_lowercase` returns: a function of the characters
/// alone.
pub uninterp spec fn lower_of(s: Seq<char>) -> Seq<char>;

/// Relies on std's `str::to_lowercase`: the lowercase form of the string,
/// a function of its characters alone.
#[verifier::external_body]
fn lowercase(s: &str) -> (r: String)
    ensures
        r@ == lower_of(s@),
{
    s.to_lowercase()
}

/// Whether a process whose name and command line are given matches the
/// watched target: the lowercased target occurs in the lowercased name or
/// in the lowercased command line.
pub fn process_matches(name: &str, cmdline: &str, target: &str) -> (r: bool)
    ensures
        r == (seq_contains(lower_of(name@), lower_of(target@)) || seq_contains(
            lower_of(cmdline@),
            lower_of(target@),
        )),
{
    let target_lower = lowercase(target);
    let name_lower = lowercase(name);
    if contains_sub(name_lower.as_str(), target_lower.as_str()) {
        return true;
    }
    let cmd_lower = lowercase(cmdline);
    contains_sub(cmd_lower.as_str(), target_lower.as_str())
}

/// Picks the entry with the greatest key — on ties, the last such entry,
/// as a fold over the candidates keeps the later of two equals. Returns
/// the entry's index.
pub fn select_max_key(xs: &Vec<(u32, u64)>) -> (r: Option<usize>)
    ensures
        xs@.len() == 0 <==> r is None,
        match r {
            Some(i) => {
                &&& i < xs@.len()
                &&& forall|j: int| 0 <= j < xs@.len() ==> xs@[j].1 <= xs@[i as int].1
                &&& forall|j: int| i < j < xs@.len() ==> xs@[j].1 < xs@[i as int].1
            },
            None => true,
        },
{
    if xs.len() == 0 {
        return None;
    }
    let mut best: usize = 0;
    let mut i: usize = 1;
    while i < xs.len()
        invariant
            best < i <= xs@.len(),
            forall|j: int| 0 <= j < i ==> xs@[j].1 <= xs@[best as int].1,
            forall|j: int| best < j < i ==> xs@[j].1 < xs@[best as int].1,
        decreases xs@.len() - i,
    {
        if xs[i].1 >= xs[best].1 {
            best = i;
        }
        i = i + 1;
    }
    Some(best)
}

// ---------------------------------------------------------------------------
// Observation frame
// ---------------------------------------------------------------------------

/// The watched target process's readings, with the fractional ones already
/// rendered as decimal numerals.
pub struct TargetProcessParts {
    pub pid: u32,
    pub name: String,
    /// Rendered decimal numeral.
    pub cpu_percent: String,
    /// Rendered decimal numeral.
    pub memory_mb: String,
    /// The OS process state, as reported.
    pub status: String,
}

/// Everything one observation reports, with each fractional reading
/// already rendered as a decimal numeral (they are embedded in the frame
/// as bare JSON numbers).
pub struct ObservationParts {
    pub agent_id: String,
    pub agent_version: String,
    pub service_id: String,
    /// Wall-clock timestamp, already rendered (RFC 3339).
    pub timestamp: String,
    /// Rendered decimal numeral.
    pub cpu_percent: String,
    /// Rendered decimal numeral.
    pub memory_used_mb: String,
    /// Rendered decimal numeral.
    pub disk_used_gb: String,
    /// Rendered decimal numeral, when the application reported one.
    pub app_cpu_percent: Option<String>,
    /// Rendered decimal numeral, when the application reported one.
    pub app_memory_used_mb: Option<String>,
    pub health_status: HealthStatus,
    /// Rendered decimal numeral.
    pub latency_ms: String,
    pub http_status: Option<u16>,
    /// Rendered decimal numeral: `100 * errors / window length`.
    pub error_rate: String,
    pub pid: u32,
    pub uptime_seconds: u64,
    pub restart_count: u64,
    pub target_process: Option<TargetProcessParts>,
}

/// A bare JSON number, or `null` when absent.
pub open spec fn spec_opt_number(o: Option<Seq<char>>) -> Seq<char> {
    match o {
        Some(n) => n,
        None => "null"@,
    }
}

pub open spec fn spec_opt_u16_number(o: Option<u16>) -> Seq<char> {
    match o {
        Some(n) => u64_dec(n as nat),
        None => "null"@,
    }
}

pub open spec fn spec_system_section(o: ObservationParts) -> Seq<char> {
    "\"system\":{\"cpu_percent\":"@ + o.cpu_percent@ + ",\"memory_used_mb\":"@
        + o.memory_used_mb@ + ",\"disk_used_gb\":"@ + o.disk_used_gb@ + "}"@
}

pub open spec fn spec_app_section(o: ObservationParts) -> Seq<char> {
    "\"app\":{\"cpu_percent\":"@ + spec_opt_number(
        match o.app_cpu_percent {
            Some(s) => Some(s@),
            None => None,
        },
    ) + ",\"memory_used_mb\":"@ + spec_opt_number(
        match o.app_memory_used_mb {
            Some(s) => Some(s@),
            None => None,
        },
    ) + "}"@
}

pub open spec fn spec_service_section(o: ObservationParts) -> Seq<char> {
    "\"service\":{\"status\":"@ + json_quoted(o.health_status.spec_label()) + ",\"latency_ms\":"@
        + o.latency_ms@ + ",\"http_status\":"@ + spec_opt_u16_number(o.http_status)
        + ",\"error_rate\":"@ + o.error_rate@ + "}"@
}

pub open spec fn spec_process_section(o: ObservationParts) -> Seq<char> {
    "\"process\":{\"pid\":"@ + u64_dec(o.pid as nat) + ",\"uptime_seconds\":"@ + u64_dec(
        o.uptime_seconds as nat,
    ) + ",\"restart_count\":"@ + u64_dec(o.restart_count as nat) + "}"@
}

pub open spec fn spec_target_section(t: TargetProcessParts) -> Seq<char> {
    "\"target_process\":{\"pid\":"@ + u64_dec(t.pid as nat) + ",\"name\":"@ + json_quoted(t.name@)
        + ",\"cpu_percent\":"@ + t.cpu_percent@ + ",\"memory_mb\":"@ + t.memory_mb@
        + ",\"status\":"@ + json_quoted(t.status@) + "}"@
}

/// The complete observation frame.
pub open spec fn spec_metrics_frame(o: ObservationParts) -> Seq<char> {
    "{\"type\":\"metrics\",\"agent_id\":"@ + json_quoted(o.agent_id@) + ",\"agent_version\":"@
        + json_quoted(o.agent_version@) + ",\"service_id\":"@ + json_quoted(o.service_id@)
        + ",\"timestamp\":"@ + json_quoted(o.timestamp@) + ","@ + spec_system_section(o) + ","@
        + spec_app_section(o) + ","@ + spec_service_section(o) + ","@ + spec_process_section(o)
        + (match o.target_process {
        Some(t) => ","@ + spec_target_section(t),
        None => Seq::<char>::empty(),
    }) + "}"@
}

fn append_opt_number(r: &mut String, o: &Option<String>)
    ensures
        final(r)@ == old(r)@ + spec_opt_number(
            match o {
                Some(s) => Some(s@),
                None => None,
            },
        ),
{
    match o {
        Some(n) => r.append(n.as_str()),
        None => r.append("null"),
    }
}

fn append_system_section(r: &mut String, o: &ObservationParts)
    ensures
        final(r)@ == old(r)@ + spec_system_section(*o),
{
    r.append("\"system\":{\"cpu_percent\":");
    r.append(o.cpu_percent.as_str());
    r.append(",\"memory_used_mb\":");
    r.append(o.memory_used_mb.as_str());
    r.append(",\"disk_used_gb\":");
    r.append(o.disk_used_gb.as_str());
    r.append("}");
    proof {
        assert(final(r)@ =~= old(r)@ + spec_system_section(*o));
    }
}

fn append_app_section(r: &mut String, o: &ObservationParts)
    ensures
        final(r)@ == old(r)@ + spec_app_section(*o),
{
    r.append("\"app\":{\"cpu_percent\":");
    append_opt_number(r, &o.app_cpu_percent);
    r.append(",\"memory_used_mb\":");
    append_opt_number(r, &o.app_memory_used_mb);
    r.append("}");
    proof {
        assert(final(r)@ =~= old(r)@ + spec_app_section(*o));
    }
}

fn append_service_section(r: &mut String, o: &ObservationParts)
    ensures
        final(r)@ == old(r)@ + spec_service_section(*o),
{
    r.append("\"service\":{\"status\":");
    let q = json_quote(o.health_status.label());
    r.append(q.as_str());
    r.append(",\"latency_ms\":");
    r.append(o.latency_ms.as_str());
    r.append(",\"http_status\":");
    match o.http_status {
        Some(n) => {
            let d = u64_to_dec(n as u64);
            r.append(d.as_str());
        },
        None => r.append("null"),
    }
    r.append(",\"error_rate\":");
    r.append(o.error_rate.as_str());
    r.append("}");
    proof {
        assert(final(r)@ =~= old(r)@ + spec_service_section(*o));
    }
}

fn append_process_section(r: &mut String, o: &ObservationParts)
    ensures
        final(r)@ == old(r)@ + spec_process_section(*o),
{
    r.append("\"process\":{\"pid\":");
    let d1 = u64_to_dec(o.pid as u64);
    r.append(d1.as_str());
    r.append(",\"uptime_seconds\":");
    let d2 = u64_to_dec(o.uptime_seconds);
    r.append(d2.as_str());
    r.append(",\"restart_count\":");
    let d3 = u64_to_dec(o.restart_count);
    r.append(d3.as_str());
    r.append("}");
    proof {
        assert(final(r)@ =~= old(r)@ + spec_process_section(*o));
    }
}

fn append_target_section(r: &mut String, t: &TargetProcessParts)
    ensures
        final(r)@ == old(r)@ + spec_target_section(*t),
{
    r.append("\"target_process\":{\"pid\":");
    let d = u64_to_dec(t.pid as u64);
    r.append(d.as_str());
    r.append(",\"name\":");
    let qn = json_quote(t.name.as_str());
    r.append(qn.as_str());
    r.append(",\"cpu_percent\":");
    r.append(t.cpu_percent.as_str());
    r.append(",\"memory_mb\":");
    r.append(t.memory_mb.as_str());
    r.append(",\"status\":");
    let qs = json_quote(t.status.as_str());
    r.append(qs.as_str());
    r.append("}");
    proof {
        assert(final(r)@ =~= old(r)@ + spec_target_section(*t));
    }
}

/// Serializes one observation to its wire frame: see
/// [`spec_metrics_frame`].
pub fn metrics_frame(o: &ObservationParts) -> (r: String)
    ensures
        r@ == spec_metrics_frame(*o),
{
    let mut r = String::new();
    r.append("{\"type\":\"metrics\",\"agent_id\":");
    let q1 = json_quote(o.agent_id.as_str());
    r.append(q1.as_str());
    r.append(",\"agent_version\":");
    let q2 = json_quote(o.agent_version.as_str());
    r.append(q2.as_str());
    r.append(",\"service_id\":");
    let q3 = json_quote(o.service_id.as_str());
    r.append(q3.as_str());
    r.append(",\"timestamp\":");
    let q4 = json_quote(o.timestamp.as_str());
    r.append(q4.as_str());
    r.append(",");
    append_system_section(&mut r, o);
    r.append(",");
    append_app_section(&mut r, o);
    r.append(",");
    append_service_section(&mut r, o);
    r.append(",");
    append_process_section(&mut r, o);
    match &o.target_process {
        Some(t) => {
            r.append(",");
            append_target_section(&mut r, t);
        },
        None => {},
    }
    r.append("}");
    proof {
        assert(r@ =~= spec_metrics_frame(*o));
    }
    r
}

} // verus!
