use nanonet_agent::inbound::{
    bool_field, field_null, field_present, parse_command_text, str_field, u64_field,
};

#[test]
fn restart_command_frame_parses() {
    let text = "{\"type\":\"command\",\"command_id\":\"c1\",\"action\":\"restart\",\"timeout_sec\":5}";
    let c = parse_command_text(text).expect("a well-formed command frame parses");
    assert_eq!(c.command_id, "c1");
    assert_eq!(c.action, "restart");
    assert_eq!(c.timeout_sec, Some(5));
    assert_eq!(c.graceful, None);
    assert_eq!(c.command, None);
    assert_eq!(c.instances, None);
    assert_eq!(c.strategy, None);
}

#[test]
fn full_command_frame_parses_all_fields() {
    let text = "{\"type\":\"command\",\"command_id\":\"c9\",\"action\":\"scale\",\
                \"timeout_sec\":12,\"graceful\":true,\"command\":\"echo hi\",\
                \"instances\":4,\"strategy\":\"least_conn\"}";
    let c = parse_command_text(text).unwrap();
    assert_eq!(c.command_id, "c9");
    assert_eq!(c.action, "scale");
    assert_eq!(c.timeout_sec, Some(12));
    assert_eq!(c.graceful, Some(true));
    assert_eq!(c.command.as_deref(), Some("echo hi"));
    assert_eq!(c.instances, Some(4));
    assert_eq!(c.strategy.as_deref(), Some("least_conn"));
}

#[test]
fn malformed_json_yields_no_command() {
    assert!(parse_command_text("{not json").is_none());
    assert!(parse_command_text("").is_none());
}

#[test]
fn non_command_type_is_ignored() {
    assert!(parse_command_text("{\"type\":\"pong\",\"command_id\":\"c1\",\"action\":\"ping\"}")
        .is_none());
    assert!(parse_command_text("{\"command_id\":\"c1\",\"action\":\"ping\"}").is_none());
    assert!(parse_command_text("[1,2,3]").is_none());
}

#[test]
fn missing_required_fields_yield_no_command() {
    assert!(parse_command_text("{\"type\":\"command\",\"action\":\"ping\"}").is_none());
    assert!(parse_command_text("{\"type\":\"command\",\"command_id\":\"c1\"}").is_none());
    // A required field of the wrong type drops the frame too.
    assert!(
        parse_command_text("{\"type\":\"command\",\"command_id\":7,\"action\":\"ping\"}").is_none()
    );
}

#[test]
fn wrongly_typed_optional_field_drops_the_frame() {
    let text =
        "{\"type\":\"command\",\"command_id\":\"c1\",\"action\":\"ping\",\"timeout_sec\":\"soon\"}";
    assert!(parse_command_text(text).is_none());
    let negative =
        "{\"type\":\"command\",\"command_id\":\"c1\",\"action\":\"ping\",\"timeout_sec\":-4}";
    assert!(parse_command_text(negative).is_none());
}

#[test]
fn null_optional_field_reads_as_absent() {
    let text =
        "{\"type\":\"command\",\"command_id\":\"c1\",\"action\":\"ping\",\"timeout_sec\":null}";
    let c = parse_command_text(text).unwrap();
    assert_eq!(c.timeout_sec, None);
}

#[test]
fn oversized_instances_drop_the_frame() {
    let text = "{\"type\":\"command\",\"command_id\":\"c1\",\"action\":\"scale\",\
                \"instances\":4294967296}";
    assert!(parse_command_text(text).is_none());
    let max = "{\"type\":\"command\",\"command_id\":\"c1\",\"action\":\"scale\",\
               \"instances\":4294967295}";
    assert_eq!(parse_command_text(max).unwrap().instances, Some(u32::MAX));
}

#[test]
fn unknown_extra_fields_are_ignored() {
    let text = "{\"type\":\"command\",\"command_id\":\"c1\",\"action\":\"ping\",\"extra\":[1]}";
    assert!(parse_command_text(text).is_some());
}

#[test]
fn field_readers_report_what_the_text_holds() {
    let text = "{\"s\":\"v\",\"n\":7,\"b\":false,\"z\":null}";
    assert_eq!(str_field(text, "s"), Some("v".to_string()));
    assert_eq!(str_field(text, "n"), None);
    assert_eq!(str_field(text, "missing"), None);
    assert_eq!(u64_field(text, "n"), Some(7));
    assert_eq!(u64_field(text, "s"), None);
    assert_eq!(bool_field(text, "b"), Some(false));
    assert_eq!(bool_field(text, "n"), None);
    assert!(field_present(text, "z"));
    assert!(!field_present(text, "missing"));
    assert!(field_null(text, "z"));
    assert!(!field_null(text, "n"));
    assert!(!field_present("{broken", "s"));
}

#[test]
fn escaped_content_round_trips_from_frame_to_command() {
    let text = "{\"type\":\"command\",\"command_id\":\"c\\n1\",\"action\":\"exec\",\
                \"command\":\"echo \\\"hi\\\"\"}";
    let c = parse_command_text(text).unwrap();
    assert_eq!(c.command_id, "c\n1");
    assert_eq!(c.command.as_deref(), Some("echo \"hi\""));
}
