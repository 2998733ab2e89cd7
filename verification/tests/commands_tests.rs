use nanonet_agent::commands::{
    plan_action, interpret_shell_outcome, CommandAck, CommandHandling, CommandPlan, CommandResult,
    Counters, IncomingCommand, ShellOutcome,
};
use nanonet_agent::config::Config;

fn cmd(action: &str) -> IncomingCommand {
    IncomingCommand {
        command_id: "c1".to_string(),
        action: action.to_string(),
        timeout_sec: None,
        graceful: None,
        command: None,
        instances: None,
        strategy: None,
    }
}

fn config() -> Config {
    Config {
        backend: "ws://b".to_string(),
        service_id: "s".to_string(),
        token: None,
        agent_token: None,
        host: "localhost".to_string(),
        port: 8080,
        health_endpoint: "/health".to_string(),
        poll_interval: 10,
        restart_cmd: None,
        stop_cmd: None,
        start_cmd: None,
        scale_cmd: None,
        error_rate_window: 20,
        metrics_endpoint: None,
        process: None,
        agent_port: 0,
        buffer_size: 120,
    }
}

#[test]
fn disallowed_action_is_rejected_naming_it_and_runs_nothing() {
    let p = plan_action(&cmd("nuke"), &config());
    match p {
        CommandPlan::Rejected { reason } => {
            assert_eq!(reason, "disallowed action: nuke");
            assert!(reason.contains("nuke"));
        }
        _ => panic!("a disallowed action must be rejected, never run"),
    }
}

#[test]
fn ping_succeeds_with_no_output() {
    match plan_action(&cmd("ping"), &config()) {
        CommandPlan::Reply { output } => assert_eq!(output, None),
        _ => panic!("ping is a no-op success"),
    }
}

#[test]
fn restart_uses_template_and_command_timeout() {
    let mut c = config();
    c.restart_cmd = Some("true".to_string());
    let mut command = cmd("restart");
    command.timeout_sec = Some(5);
    match plan_action(&command, &c) {
        CommandPlan::Shell { command_line, timeout_sec } => {
            assert_eq!(command_line, "true");
            assert_eq!(timeout_sec, 5);
        }
        _ => panic!("restart with a template runs it"),
    }
}

#[test]
fn restart_timeout_defaults_to_thirty() {
    let mut c = config();
    c.restart_cmd = Some("svc restart".to_string());
    match plan_action(&cmd("restart"), &c) {
        CommandPlan::Shell { timeout_sec, .. } => assert_eq!(timeout_sec, 30),
        _ => panic!("restart with a template runs it"),
    }
}

#[test]
fn unconfigured_restart_fails_with_reason() {
    match plan_action(&cmd("restart"), &config()) {
        CommandPlan::Unrunnable { reason } => {
            assert_eq!(reason, "restart command not configured");
        }
        _ => panic!("restart without a template must fail"),
    }
}

#[test]
fn stop_and_start_have_fixed_timeouts() {
    let mut c = config();
    c.stop_cmd = Some("svc stop".to_string());
    c.start_cmd = Some("svc start".to_string());
    match plan_action(&cmd("stop"), &c) {
        CommandPlan::Shell { command_line, timeout_sec } => {
            assert_eq!(command_line, "svc stop");
            assert_eq!(timeout_sec, 30);
        }
        _ => panic!("stop with a template runs it"),
    }
    match plan_action(&cmd("start"), &c) {
        CommandPlan::Shell { command_line, timeout_sec } => {
            assert_eq!(command_line, "svc start");
            assert_eq!(timeout_sec, 60);
        }
        _ => panic!("start with a template runs it"),
    }
}

#[test]
fn unconfigured_stop_and_start_fail() {
    assert!(matches!(
        plan_action(&cmd("stop"), &config()),
        CommandPlan::Unrunnable { .. }
    ));
    assert!(matches!(
        plan_action(&cmd("start"), &config()),
        CommandPlan::Unrunnable { .. }
    ));
}

#[test]
fn exec_runs_the_given_command() {
    let mut command = cmd("exec");
    command.command = Some("echo hi".to_string());
    match plan_action(&command, &config()) {
        CommandPlan::Shell { command_line, timeout_sec } => {
            assert_eq!(command_line, "echo hi");
            assert_eq!(timeout_sec, 30);
        }
        _ => panic!("exec with a command runs it"),
    }
}

#[test]
fn exec_without_command_fails() {
    match plan_action(&cmd("exec"), &config()) {
        CommandPlan::Unrunnable { reason } => assert_eq!(reason, "exec: missing command field"),
        _ => panic!("exec without a command must fail"),
    }
    let mut blank = cmd("exec");
    blank.command = Some("   \n".to_string());
    assert!(matches!(
        plan_action(&blank, &config()),
        CommandPlan::Unrunnable { .. }
    ));
}

#[test]
fn scale_with_template_prefixes_environment() {
    let mut c = config();
    c.scale_cmd = Some("deploy.sh".to_string());
    let mut command = cmd("scale");
    command.instances = Some(3);
    command.strategy = Some("least_conn".to_string());
    match plan_action(&command, &c) {
        CommandPlan::Shell { command_line, timeout_sec } => {
            assert_eq!(command_line, "INSTANCES=3 STRATEGY=least_conn deploy.sh");
            assert_eq!(timeout_sec, 60);
        }
        _ => panic!("scale with a template runs it"),
    }
}

#[test]
fn scale_without_template_acknowledges_with_defaults() {
    match plan_action(&cmd("scale"), &config()) {
        CommandPlan::Reply { output } => {
            assert_eq!(
                output.as_deref(),
                Some("scale acknowledged: 1 instance(s), strategy=round_robin")
            );
        }
        _ => panic!("scale without a template succeeds with an acknowledgement"),
    }
}

#[test]
fn zero_exit_succeeds_with_trimmed_stdout() {
    let r = interpret_shell_outcome(
        &ShellOutcome::Exited {
            exit_code: Some(0),
            stdout: "  hi \n".to_string(),
            stderr: String::new(),
        },
        30,
    );
    assert_eq!(r, Ok(Some("hi".to_string())));
}

#[test]
fn zero_exit_with_blank_stdout_has_no_output() {
    let r = interpret_shell_outcome(
        &ShellOutcome::Exited {
            exit_code: Some(0),
            stdout: " \n".to_string(),
            stderr: "noise".to_string(),
        },
        30,
    );
    assert_eq!(r, Ok(None));
}

#[test]
fn nonzero_exit_prefers_stderr_then_stdout_then_code() {
    let both = interpret_shell_outcome(
        &ShellOutcome::Exited {
            exit_code: Some(1),
            stdout: "out".to_string(),
            stderr: " bad \n".to_string(),
        },
        30,
    );
    assert_eq!(both, Err("bad".to_string()));
    let stdout_only = interpret_shell_outcome(
        &ShellOutcome::Exited {
            exit_code: Some(1),
            stdout: " out ".to_string(),
            stderr: String::new(),
        },
        30,
    );
    assert_eq!(stdout_only, Err("out".to_string()));
    let neither = interpret_shell_outcome(
        &ShellOutcome::Exited {
            exit_code: Some(7),
            stdout: String::new(),
            stderr: String::new(),
        },
        30,
    );
    assert_eq!(neither, Err("exit code: 7".to_string()));
}

#[test]
fn signal_death_is_reported() {
    let r = interpret_shell_outcome(
        &ShellOutcome::Exited {
            exit_code: None,
            stdout: String::new(),
            stderr: String::new(),
        },
        30,
    );
    assert_eq!(r, Err("terminated by signal".to_string()));
}

#[test]
fn timeout_failure_names_the_deadline() {
    let r = interpret_shell_outcome(&ShellOutcome::TimedOut, 5);
    assert_eq!(r, Err("timeout (5s)".to_string()));
}

#[test]
fn spawn_error_is_reported() {
    let r = interpret_shell_outcome(
        &ShellOutcome::SpawnError { message: "no such shell".to_string() },
        30,
    );
    assert_eq!(r, Err("failed to start command: no such shell".to_string()));
}

#[test]
fn ack_frame_text_is_exact() {
    let c = cmd("ping");
    assert_eq!(c.ack_json(), "{\"type\":\"ack\",\"command_id\":\"c1\"}");
}

#[test]
fn ack_frame_round_trips_through_json() {
    let mut c = cmd("ping");
    c.command_id = "we\"ird\\id\n".to_string();
    let v: serde_json::Value = serde_json::from_str(&c.ack_json()).unwrap();
    assert_eq!(v["type"].as_str(), Some("ack"));
    assert_eq!(v["command_id"].as_str(), Some("we\"ird\\id\n"));
}

#[test]
fn result_frame_reports_status_error_and_output() {
    let c = cmd("exec");
    let ok = c.result_json(true, None, Some("done".to_string()));
    assert_eq!(
        ok,
        "{\"type\":\"result\",\"command_id\":\"c1\",\"status\":\"success\",\"output\":\"done\"}"
    );
    let failed = c.result_json(false, Some("boom".to_string()), None);
    let v: serde_json::Value = serde_json::from_str(&failed).unwrap();
    assert_eq!(v["type"].as_str(), Some("result"));
    assert_eq!(v["command_id"].as_str(), Some("c1"));
    assert_eq!(v["status"].as_str(), Some("failed"));
    assert_eq!(v["error"].as_str(), Some("boom"));
    assert!(v.get("output").is_none());
}

#[test]
fn control_characters_escape_and_round_trip() {
    let c = cmd("exec");
    let noisy = "tab\there\u{1}and\u{1f}bell\u{7}".to_string();
    let frame = c.result_json(false, Some(noisy.clone()), None);
    assert!(frame.contains("\\t"));
    assert!(frame.contains("\\u0001"));
    assert!(frame.contains("\\u001f"));
    let v: serde_json::Value = serde_json::from_str(&frame).unwrap();
    assert_eq!(v["error"].as_str(), Some(noisy.as_str()));
}

#[test]
fn ack_and_result_structs_serialize_in_declared_shape() {
    let ack = CommandAck { msg_type: "ack".to_string(), command_id: "x".to_string() };
    assert_eq!(ack.to_json(), "{\"type\":\"ack\",\"command_id\":\"x\"}");
    let result = CommandResult {
        msg_type: "result".to_string(),
        command_id: "x".to_string(),
        status: "success".to_string(),
        error: None,
        output: None,
    };
    assert_eq!(
        result.to_json(),
        "{\"type\":\"result\",\"command_id\":\"x\",\"status\":\"success\"}"
    );
}

#[test]
fn command_handling_emits_one_ack_then_one_result() {
    // The wire discipline for one command: the ACK frame first, then the
    // terminal Result, both carrying the command's id.
    let mut h = CommandHandling::begin(cmd("ping"));
    let ack = h.take_ack_frame();
    assert_eq!(ack, "{\"type\":\"ack\",\"command_id\":\"c1\"}");
    let result = h.take_result_frame(true, None, None);
    assert_eq!(result, "{\"type\":\"result\",\"command_id\":\"c1\",\"status\":\"success\"}");
}

#[test]
fn successful_restart_bumps_both_counters() {
    let mut counters = Counters::new();
    counters.on_command_finished("restart", true);
    assert_eq!(counters.commands_handled, 1);
    assert_eq!(counters.restart_count, 1);
    assert_eq!(counters.frames_sent, 0);
}

#[test]
fn failed_restart_leaves_counters_unchanged() {
    let mut counters = Counters::new();
    counters.on_command_finished("restart", false);
    assert_eq!(counters.commands_handled, 0);
    assert_eq!(counters.restart_count, 0);
}

#[test]
fn successful_non_restart_counts_only_as_handled() {
    let mut counters = Counters::new();
    counters.on_command_finished("exec", true);
    assert_eq!(counters.commands_handled, 1);
    assert_eq!(counters.restart_count, 0);
}

#[test]
fn frames_sent_counter_increments() {
    let mut counters = Counters::new();
    counters.on_frame_sent();
    counters.on_frame_sent();
    assert_eq!(counters.frames_sent, 2);
}
