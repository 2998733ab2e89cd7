//! Command handling: the allow-list, the execution plan for each inbound
//! command, the interpretation of a finished subprocess, the ACK / Result
//! wire frames, and the per-command wire discipline (exactly one ACK, then
//! exactly one Result, both carrying the command's id).
//!
//! Subprocesses themselves run outside the library; their observable
//! outcome (exit code and captured output, a timeout, or a spawn error)
//! comes back as a [`ShellOutcome`] and is interpreted here.

use vstd::prelude::*;
use vstd::string::StringExecFns;

use crate::config::Config;
use crate::text::{
    json_quote, json_quoted, lemma_escape_plain, lit_str, occurs_at, seq_contains, str_eq,
    trim_str, trimmed, u64_dec, u64_to_dec,
};

verus! {

/// A command received from the control plane.
pub struct IncomingCommand {
    /// Opaque id, unique per invocation; echoed in the ACK and the Result.
    pub command_id: String,
    pub action: String,
    /// Deadline in seconds for restart and exec.
    pub timeout_sec: Option<u64>,
    /// Whether a stop should be graceful.
    pub graceful: Option<bool>,
    /// The shell command of an exec action.
    pub command: Option<String>,
    /// Instance count of a scale action.
    pub instances: Option<u32>,
    /// Load-balancing strategy of a scale action.
    pub strategy: Option<String>,
}

/// The content of an ACK frame.
pub struct CommandAck {
    /// Always `ack` on the wire.
    pub msg_type: String,
    pub command_id: String,
}

/// The content of a terminal Result frame.
pub struct CommandResult {
    /// Always `result` on the wire.
    pub msg_type: String,
    pub command_id: String,
    /// `success` or `failed`.
    pub status: String,
    pub error: Option<String>,
    pub output: Option<String>,
}

/// The shared head of the ACK and Result frames: the frame type and the
/// command id.
pub open spec fn spec_typed_frame_head(msg_type: Seq<char>, command_id: Seq<char>) -> Seq<char> {
    "{\"type\":"@ + json_quoted(msg_type) + ",\"command_id\":"@ + json_quoted(command_id)
}

impl CommandAck {
    /// Serializes the ACK frame.
    pub fn to_json(&self) -> (r: String)
        ensures
            r@ == spec_typed_frame_head(self.msg_type@, self.command_id@) + "}"@,
    {
        let mut r = String::new();
        r.append("{\"type\":");
        let qt = json_quote(self.msg_type.as_str());
        r.append(qt.as_str());
        r.append(",\"command_id\":");
        let qi = json_quote(self.command_id.as_str());
        r.append(qi.as_str());
        r.append("}");
        proof {
            assert(r@ =~= spec_typed_frame_head(self.msg_type@, self.command_id@) + "}"@);
        }
        r
    }
}

impl CommandResult {
    /// Serializes the Result frame; the optional error and output fields
    /// appear only when present.
    pub fn to_json(&self) -> (r: String)
        ensures
            r@ == spec_typed_frame_head(self.msg_type@, self.command_id@) + ",\"status\":"@
                + json_quoted(self.status@) + (match self.error {
                Some(ref e) => ",\"error\":"@ + json_quoted(e@),
                None => Seq::<char>::empty(),
            }) + (match self.output {
                Some(ref o) => ",\"output\":"@ + json_quoted(o@),
                None => Seq::<char>::empty(),
            }) + "}"@,
    {
        let mut r = String::new();
        r.append("{\"type\":");
        let qt = json_quote(self.msg_type.as_str());
        r.append(qt.as_str());
        r.append(",\"command_id\":");
        let qi = json_quote(self.command_id.as_str());
        r.append(qi.as_str());
        r.append(",\"status\":");
        let qs = json_quote(self.status.as_str());
        r.append(qs.as_str());
        match &self.error {
            Some(e) => {
                r.append(",\"error\":");
                let q = json_quote(e.as_str());
                r.append(q.as_str());
            },
            None => {},
        }
        match &self.output {
            Some(o) => {
                r.append(",\"output\":");
                let q = json_quote(o.as_str());
                r.append(q.as_str());
            },
            None => {},
        }
        r.append("}");
        proof {
            assert(r@ =~= spec_typed_frame_head(self.msg_type@, self.command_id@) + ",\"status\":"@
                + json_quoted(self.status@) + (match self.error {
                Some(ref e) => ",\"error\":"@ + json_quoted(e@),
                None => Seq::<char>::empty(),
            }) + (match self.output {
                Some(ref o) => ",\"output\":"@ + json_quoted(o@),
                None => Seq::<char>::empty(),
            }) + "}"@);
        }
        r
    }
}

// ---------------------------------------------------------------------------
// Allow-list
// ---------------------------------------------------------------------------

/// The closed set of actions the agent will consider executing. Anything
/// else is refused before any per-action logic runs.
pub open spec fn is_allowed_action(a: Seq<char>) -> bool {
    ||| a == "ping"@
    ||| a == "restart"@
    ||| a == "stop"@
    ||| a == "start"@
    ||| a == "exec"@
    ||| a == "scale"@
}

pub fn allowed_action(a: &str) -> (r: bool)
    ensures
        r == is_allowed_action(a@),
{
    str_eq(a, "ping") || str_eq(a, "restart") || str_eq(a, "stop") || str_eq(a, "start") || str_eq(
        a,
        "exec",
    ) || str_eq(a, "scale")
}

// ---------------------------------------------------------------------------
// Execution planning
// ---------------------------------------------------------------------------

/// What the agent decides to do with a command. The subprocess of a
/// `Shell` plan runs outside the library.
pub enum CommandPlan {
    /// The action is outside the allow-list: refuse it, run nothing.
    Rejected { reason: String },
    /// Answer success immediately, with no subprocess (ping; scale with no
    /// template configured).
    Reply { output: Option<String> },
    /// Answer failure immediately, with no subprocess (missing template or
    /// missing field).
    Unrunnable { reason: String },
    /// Run this shell command line under this deadline (seconds).
    Shell { command_line: String, timeout_sec: u64 },
}

/// Ghost mirror of [`CommandPlan`], over character sequences.
pub ghost enum PlanModel {
    Rejected { reason: Seq<char> },
    Reply { output: Option<Seq<char>> },
    Unrunnable { reason: Seq<char> },
    Shell { command_line: Seq<char>, timeout_sec: u64 },
}

impl CommandPlan {
    pub open spec fn model(&self) -> PlanModel {
        match self {
            CommandPlan::Rejected { reason } => PlanModel::Rejected { reason: reason@ },
            CommandPlan::Reply { output } => PlanModel::Reply {
                output: match output {
                    Some(o) => Some(o@),
                    None => None,
                },
            },
            CommandPlan::Unrunnable { reason } => PlanModel::Unrunnable { reason: reason@ },
            CommandPlan::Shell { command_line, timeout_sec } => PlanModel::Shell {
                command_line: command_line@,
                timeout_sec: *timeout_sec,
            },
        }
    }
}

pub open spec fn spec_or_u64(t: Option<u64>, d: u64) -> u64 {
    match t {
        Some(x) => x,
        None => d,
    }
}

pub open spec fn spec_disallowed_reason(action: Seq<char>) -> Seq<char> {
    "disallowed action: "@ + action
}

pub open spec fn spec_scale_instances(cmd: IncomingCommand) -> u32 {
    match cmd.instances {
        Some(n) => n,
        None => 1,
    }
}

pub open spec fn spec_scale_strategy(cmd: IncomingCommand) -> Seq<char> {
    match cmd.strategy {
        Some(s) => s@,
        None => "round_robin"@,
    }
}

pub open spec fn spec_scale_command_line(cmd: IncomingCommand, template: Seq<char>) -> Seq<char> {
    "INSTANCES="@ + u64_dec(spec_scale_instances(cmd) as nat) + " STRATEGY="@
        + spec_scale_strategy(cmd) + " "@ + template
}

pub open spec fn spec_scale_ack_output(cmd: IncomingCommand) -> Seq<char> {
    "scale acknowledged: "@ + u64_dec(spec_scale_instances(cmd) as nat) + " instance(s), strategy="@
        + spec_scale_strategy(cmd)
}

/// The plan for a command under a configuration:
/// - an action outside the allow-list is rejected with a reason naming it;
/// - `ping` succeeds with no output;
/// - `restart`, `stop` and `start` run their configured templates under
///   deadlines of `timeout_sec` (default 30), 30, and 60 seconds, and fail
///   when no template is configured;
/// - `exec` runs the command field under `timeout_sec` (default 30) and
///   fails when the field is missing or blank;
/// - `scale` runs the configured template with INSTANCES (default 1) and
///   STRATEGY (default round_robin) prefixed, under a 60 second deadline,
///   and succeeds with an acknowledgement when no template is configured.
pub open spec fn spec_plan(cmd: IncomingCommand, config: Config) -> PlanModel {
    if !is_allowed_action(cmd.action@) {
        PlanModel::Rejected { reason: spec_disallowed_reason(cmd.action@) }
    } else if cmd.action@ == "ping"@ {
        PlanModel::Reply { output: None }
    } else if cmd.action@ == "restart"@ {
        match config.restart_cmd {
            Some(c) => PlanModel::Shell {
                command_line: c@,
                timeout_sec: spec_or_u64(cmd.timeout_sec, 30),
            },
            None => PlanModel::Unrunnable { reason: "restart command not configured"@ },
        }
    } else if cmd.action@ == "stop"@ {
        match config.stop_cmd {
            Some(c) => PlanModel::Shell { command_line: c@, timeout_sec: 30 },
            None => PlanModel::Unrunnable { reason: "stop command not configured"@ },
        }
    } else if cmd.action@ == "start"@ {
        match config.start_cmd {
            Some(c) => PlanModel::Shell { command_line: c@, timeout_sec: 60 },
            None => PlanModel::Unrunnable { reason: "start command not configured"@ },
        }
    } else if cmd.action@ == "exec"@ {
        match cmd.command {
            Some(c) => if trimmed(c@).len() > 0 {
                PlanModel::Shell {
                    command_line: c@,
                    timeout_sec: spec_or_u64(cmd.timeout_sec, 30),
                }
            } else {
                PlanModel::Unrunnable { reason: "exec: missing command field"@ }
            },
            None => PlanModel::Unrunnable { reason: "exec: missing command field"@ },
        }
    } else {
        match config.scale_cmd {
            Some(c) => PlanModel::Shell {
                command_line: spec_scale_command_line(cmd, c@),
                timeout_sec: 60,
            },
            None => PlanModel::Reply { output: Some(spec_scale_ack_output(cmd)) },
        }
    }
}

/// Decides what to do with `cmd`: see [`spec_plan`]. Runs nothing itself.
pub fn plan_action(cmd: &IncomingCommand, config: &Config) -> (p: CommandPlan)
    ensures
        p.model() == spec_plan(*cmd, *config),
{
    if !allowed_action(self_action(cmd)) {
        let mut reason = String::new();
        reason.append("disallowed action: ");
        reason.append(cmd.action.as_str());
        let p = CommandPlan::Rejected { reason };
        proof {
            assert(p.model()->Rejected_reason =~= spec_disallowed_reason(cmd.action@));
        }
        p
    } else if str_eq(self_action(cmd), "ping") {
        CommandPlan::Reply { output: None }
    } else if str_eq(self_action(cmd), "restart") {
        match &config.restart_cmd {
            Some(c) => CommandPlan::Shell {
                command_line: c.clone(),
                timeout_sec: or_u64(&cmd.timeout_sec, 30),
            },
            None => CommandPlan::Unrunnable {
                reason: lit_str("restart command not configured"),
            },
        }
    } else if str_eq(self_action(cmd), "stop") {
        match &config.stop_cmd {
            Some(c) => CommandPlan::Shell { command_line: c.clone(), timeout_sec: 30 },
            None => CommandPlan::Unrunnable { reason: lit_str("stop command not configured") },
        }
    } else if str_eq(self_action(cmd), "start") {
        match &config.start_cmd {
            Some(c) => CommandPlan::Shell { command_line: c.clone(), timeout_sec: 60 },
            None => CommandPlan::Unrunnable { reason: lit_str("start command not configured") },
        }
    } else if str_eq(self_action(cmd), "exec") {
        match &cmd.command {
            Some(c) => {
                let t = trim_str(c.as_str());
                if t.as_str().is_empty() {
                    CommandPlan::Unrunnable { reason: lit_str("exec: missing command field") }
                } else {
                    CommandPlan::Shell {
                        command_line: c.clone(),
                        timeout_sec: or_u64(&cmd.timeout_sec, 30),
                    }
                }
            },
            None => CommandPlan::Unrunnable { reason: lit_str("exec: missing command field") },
        }
    } else {
        let instances: u32 = match &cmd.instances {
            Some(n) => *n,
            None => 1,
        };
        let strategy: &str = match &cmd.strategy {
            Some(s) => s.as_str(),
            None => "round_robin",
        };
        let n_dec = u64_to_dec(instances as u64);
        match &config.scale_cmd {
            Some(c) => {
                let mut line = String::new();
                line.append("INSTANCES=");
                line.append(n_dec.as_str());
                line.append(" STRATEGY=");
                line.append(strategy);
                line.append(" ");
                line.append(c.as_str());
                let p = CommandPlan::Shell { command_line: line, timeout_sec: 60 };
                proof {
                    assert(p.model()->Shell_command_line =~= spec_scale_command_line(
                        *cmd,
                        config.scale_cmd->Some_0@,
                    ));
                }
                p
            },
            None => {
                let mut out = String::new();
                out.append("scale acknowledged: ");
                out.append(n_dec.as_str());
                out.append(" instance(s), strategy=");
                out.append(strategy);
                let p = CommandPlan::Reply { output: Some(out) };
                proof {
                    assert(p.model()->Reply_output->Some_0 =~= spec_scale_ack_output(*cmd));
                }
                p
            },
        }
    }
}

fn self_action(cmd: &IncomingCommand) -> (r: &str)
    ensures
        r@ == cmd.action@,
{
    cmd.action.as_str()
}

fn or_u64(t: &Option<u64>, d: u64) -> (r: u64)
    ensures
        r == spec_or_u64(*t, d),
{
    match t {
        Some(x) => *x,
        None => d,
    }
}

// ---------------------------------------------------------------------------
// Subprocess outcome interpretation
// ---------------------------------------------------------------------------

/// The observable outcome of running a planned shell command outside the
/// library.
pub enum ShellOutcome {
    /// The deadline expired before the subprocess finished.
    TimedOut,
    /// The subprocess could not be started.
    SpawnError { message: String },
    /// The subprocess finished; `exit_code` is `None` when it was killed by
    /// a signal.
    Exited { exit_code: Option<i32>, stdout: String, stderr: String },
}

pub open spec fn spec_i32_dec(n: int) -> Seq<char> {
    if n < 0 {
        seq!['-'] + u64_dec((-n) as nat)
    } else {
        u64_dec(n as nat)
    }
}

pub open spec fn spec_exit_reason(exit_code: Option<i32>) -> Seq<char> {
    match exit_code {
        Some(n) => "exit code: "@ + spec_i32_dec(n as int),
        None => "terminated by signal"@,
    }
}

/// What a finished subprocess means:
/// - exit status 0 succeeds with the trimmed stdout (absent when blank);
/// - a non-zero exit fails with the trimmed stderr, else the trimmed
///   stdout, else the exit code;
/// - a timeout fails naming the deadline;
/// - a spawn error fails with its description.
pub open spec fn spec_shell_result(outcome: ShellOutcome, timeout_sec: u64) -> Result<
    Option<Seq<char>>,
    Seq<char>,
> {
    match outcome {
        ShellOutcome::TimedOut => Err("timeout ("@ + u64_dec(timeout_sec as nat) + "s)"@),
        ShellOutcome::SpawnError { message } => Err("failed to start command: "@ + message@),
        ShellOutcome::Exited { exit_code, stdout, stderr } => {
            if exit_code == Some(0i32) {
                if trimmed(stdout@).len() == 0 {
                    Ok(None)
                } else {
                    Ok(Some(trimmed(stdout@)))
                }
            } else {
                if trimmed(stderr@).len() > 0 {
                    Err(trimmed(stderr@))
                } else if trimmed(stdout@).len() > 0 {
                    Err(trimmed(stdout@))
                } else {
                    Err(spec_exit_reason(exit_code))
                }
            }
        },
    }
}

pub open spec fn shell_result_matches(
    r: Result<Option<String>, String>,
    s: Result<Option<Seq<char>>, Seq<char>>,
) -> bool {
    match r {
        Ok(None) => s == Ok::<Option<Seq<char>>, Seq<char>>(None),
        Ok(Some(o)) => s == Ok::<Option<Seq<char>>, Seq<char>>(Some(o@)),
        Err(e) => s == Err::<Option<Seq<char>>, Seq<char>>(e@),
    }
}

fn i32_dec(n: i32) -> (s: String)
    ensures
        s@ == spec_i32_dec(n as int),
{
    if n < 0 {
        let magnitude: u64 = (-(n as i64)) as u64;
        let mut s = String::new();
        crate::text::push_char(&mut s, '-');
        let d = u64_to_dec(magnitude);
        s.append(d.as_str());
        proof {
            assert(s@ =~= spec_i32_dec(n as int));
        }
        s
    } else {
        u64_to_dec(n as u64)
    }
}

/// Interprets a finished subprocess: see [`spec_shell_result`].
pub fn interpret_shell_outcome(outcome: &ShellOutcome, timeout_sec: u64) -> (r: Result<
    Option<String>,
    String,
>)
    ensures
        shell_result_matches(r, spec_shell_result(*outcome, timeout_sec)),
{
    match outcome {
        ShellOutcome::TimedOut => {
            let mut e = String::new();
            e.append("timeout (");
            let d = u64_to_dec(timeout_sec);
            e.append(d.as_str());
            e.append("s)");
            proof {
                assert(e@ =~= "timeout ("@ + u64_dec(timeout_sec as nat) + "s)"@);
            }
            Err(e)
        },
        ShellOutcome::SpawnError { message } => {
            let mut e = String::new();
            e.append("failed to start command: ");
            e.append(message.as_str());
            Err(e)
        },
        ShellOutcome::Exited { exit_code, stdout, stderr } => {
            let zero = match exit_code {
                Some(c) => *c == 0,
                None => false,
            };
            if zero {
                let t = trim_str(stdout.as_str());
                if t.as_str().is_empty() {
                    Ok(None)
                } else {
                    Ok(Some(t))
                }
            } else {
                let te = trim_str(stderr.as_str());
                if !te.as_str().is_empty() {
                    Err(te)
                } else {
                    let to = trim_str(stdout.as_str());
                    if !to.as_str().is_empty() {
                        Err(to)
                    } else {
                        match exit_code {
                            Some(c) => {
                                let mut e = String::new();
                                e.append("exit code: ");
                                let d = i32_dec(*c);
                                e.append(d.as_str());
                                Err(e)
                            },
                            None => Err(lit_str("terminated by signal")),
                        }
                    }
                }
            }
        },
    }
}

// ---------------------------------------------------------------------------
// Wire frames
// ---------------------------------------------------------------------------

/// The ACK frame for a command id.
pub open spec fn ack_frame(command_id: Seq<char>) -> Seq<char> {
    "{\"type\":\"ack\",\"command_id\":"@ + json_quoted(command_id) + "}"@
}

pub open spec fn opt_string_view(o: Option<String>) -> Option<Seq<char>> {
    match o {
        Some(s) => Some(s@),
        None => None,
    }
}

/// The Result frame for a command id: its status, and the error and output
/// fields when present.
pub open spec fn result_frame(
    command_id: Seq<char>,
    success: bool,
    error: Option<Seq<char>>,
    output: Option<Seq<char>>,
) -> Seq<char> {
    "{\"type\":\"result\",\"command_id\":"@ + json_quoted(command_id) + ",\"status\":"@
        + json_quoted(
        if success {
            "success"@
        } else {
            "failed"@
        },
    ) + (match error {
        Some(e) => ",\"error\":"@ + json_quoted(e),
        None => Seq::<char>::empty(),
    }) + (match output {
        Some(o) => ",\"output\":"@ + json_quoted(o),
        None => Seq::<char>::empty(),
    }) + "}"@
}

impl IncomingCommand {
    /// Serializes the ACK frame acknowledging this command.
    pub fn ack_json(&self) -> (r: String)
        ensures
            r@ == ack_frame(self.command_id@),
    {
        let ack = CommandAck { msg_type: lit_str("ack"), command_id: self.command_id.clone() };
        let r = ack.to_json();
        proof {
            reveal_strlit("ack");
            reveal_strlit("{\"type\":");
            reveal_strlit(",\"command_id\":");
            reveal_strlit("{\"type\":\"ack\",\"command_id\":");
            lemma_escape_plain("ack"@);
            assert(r@ =~= ack_frame(self.command_id@));
        }
        r
    }

    /// Serializes the terminal Result frame for this command.
    pub fn result_json(&self, success: bool, error: Option<String>, output: Option<String>) -> (r:
        String)
        ensures
            r@ == result_frame(
                self.command_id@,
                success,
                opt_string_view(error),
                opt_string_view(output),
            ),
    {
        let res = CommandResult {
            msg_type: lit_str("result"),
            command_id: self.command_id.clone(),
            status: if success {
                lit_str("success")
            } else {
                lit_str("failed")
            },
            error,
            output,
        };
        let r = res.to_json();
        proof {
            reveal_strlit("result");
            reveal_strlit("{\"type\":");
            reveal_strlit(",\"command_id\":");
            reveal_strlit("{\"type\":\"result\",\"command_id\":");
            lemma_escape_plain("result"@);
            assert(r@ =~= result_frame(
                self.command_id@,
                success,
                opt_string_view(error),
                opt_string_view(output),
            ));
        }
        r
    }
}

// ---------------------------------------------------------------------------
// Per-command wire discipline
// ---------------------------------------------------------------------------

#[derive(PartialEq, Eq, Structural, Clone, Copy, Debug)]
pub enum HandlingPhase {
    Received,
    Acked,
    Finished,
}

/// Tracks the wire discipline for one command: the ACK frame can be
/// produced exactly once, from the initial phase, and the Result frame
/// exactly once, only after the ACK. Both carry the command's id.
pub struct CommandHandling {
    cmd: IncomingCommand,
    phase: HandlingPhase,
}

impl CommandHandling {
    pub closed spec fn phase(&self) -> HandlingPhase {
        self.phase
    }

    pub closed spec fn command_id(&self) -> Seq<char> {
        self.cmd.command_id@
    }

    pub fn begin(cmd: IncomingCommand) -> (h: CommandHandling)
        ensures
            h.phase() == HandlingPhase::Received,
            h.command_id() == cmd.command_id@,
    {
        CommandHandling { cmd, phase: HandlingPhase::Received }
    }

    /// The command being handled (what execution planning reads).
    pub fn command(&self) -> (c: &IncomingCommand)
        ensures
            c.command_id@ == self.command_id(),
    {
        &self.cmd
    }

    /// Produces the single ACK frame; callable only before the ACK exists.
    pub fn take_ack_frame(&mut self) -> (f: String)
        requires
            old(self).phase() == HandlingPhase::Received,
        ensures
            final(self).phase() == HandlingPhase::Acked,
            final(self).command_id() == old(self).command_id(),
            f@ == ack_frame(old(self).command_id()),
    {
        self.phase = HandlingPhase::Acked;
        self.cmd.ack_json()
    }

    /// Produces the single Result frame; callable only once the ACK exists
    /// and the execution outcome is known.
    pub fn take_result_frame(&mut self, success: bool, error: Option<String>, output: Option<
        String,
    >) -> (f: String)
        requires
            old(self).phase() == HandlingPhase::Acked,
        ensures
            final(self).phase() == HandlingPhase::Finished,
            final(self).command_id() == old(self).command_id(),
            f@ == result_frame(
                old(self).command_id(),
                success,
                opt_string_view(error),
                opt_string_view(output),
            ),
    {
        self.phase = HandlingPhase::Finished;
        self.cmd.result_json(success, error, output)
    }
}

/// Both frames of one command embed the same quoted command id: the ACK and
/// the Result the control plane correlates are about the same invocation.
pub proof fn lemma_frames_carry_id(
    command_id: Seq<char>,
    success: bool,
    error: Option<Seq<char>>,
    output: Option<Seq<char>>,
)
    ensures
        seq_contains(ack_frame(command_id), json_quoted(command_id)),
        seq_contains(result_frame(command_id, success, error, output), json_quoted(command_id)),
{
    let q = json_quoted(command_id);
    let ap = "{\"type\":\"ack\",\"command_id\":"@;
    assert(ack_frame(command_id).subrange(ap.len() as int, ap.len() + q.len() as int) =~= q);
    assert(occurs_at(ack_frame(command_id), q, ap.len() as int));
    let rp = "{\"type\":\"result\",\"command_id\":"@;
    assert(result_frame(command_id, success, error, output).subrange(
        rp.len() as int,
        rp.len() + q.len() as int,
    ) =~= q);
    assert(occurs_at(result_frame(command_id, success, error, output), q, rp.len() as int));
}

/// A disallowed action is refused with a reason that names it, and its plan
/// runs no subprocess.
pub proof fn lemma_disallowed_action(cmd: IncomingCommand, config: Config)
    requires
        !is_allowed_action(cmd.action@),
    ensures
        (spec_plan(cmd, config) == PlanModel::Rejected {
            reason: spec_disallowed_reason(cmd.action@),
        }),
        seq_contains(spec_disallowed_reason(cmd.action@), cmd.action@),
        !(spec_plan(cmd, config) is Shell),
{
    let p = "disallowed action: "@;
    let r = spec_disallowed_reason(cmd.action@);
    assert(r.subrange(p.len() as int, p.len() + cmd.action@.len() as int) =~= cmd.action@);
    assert(occurs_at(r, cmd.action@, p.len() as int));
}

// ---------------------------------------------------------------------------
// Counters
// ---------------------------------------------------------------------------

/// Monotonically non-decreasing process-wide counters.
pub struct Counters {
    pub frames_sent: u64,
    pub commands_handled: u64,
    pub restart_count: u64,
}

impl Counters {
    pub fn new() -> (c: Counters)
        ensures
            c.frames_sent == 0,
            c.commands_handled == 0,
            c.restart_count == 0,
    {
        Counters { frames_sent: 0, commands_handled: 0, restart_count: 0 }
    }

    /// Counts one frame delivered to the control plane.
    pub fn on_frame_sent(&mut self)
        requires
            old(self).frames_sent < u64::MAX,
        ensures
            final(self).frames_sent == old(self).frames_sent + 1,
            final(self).commands_handled == old(self).commands_handled,
            final(self).restart_count == old(self).restart_count,
    {
        self.frames_sent = self.frames_sent + 1;
    }

    /// Counts a finished command: every successful terminal result counts
    /// as handled, and a successful restart additionally counts as a
    /// restart. Failures leave both counters unchanged.
    pub fn on_command_finished(&mut self, action: &str, success: bool)
        requires
            old(self).commands_handled < u64::MAX,
            old(self).restart_count < u64::MAX,
        ensures
            final(self).frames_sent == old(self).frames_sent,
            final(self).commands_handled == old(self).commands_handled + if success {
                1int
            } else {
                0int
            },
            final(self).restart_count == old(self).restart_count + if success && action@
                == "restart"@ {
                1int
            } else {
                0int
            },
    {
        if success {
            self.commands_handled = self.commands_handled + 1;
            if str_eq(action, "restart") {
                self.restart_count = self.restart_count + 1;
            }
        }
    }
}

} // verus!
