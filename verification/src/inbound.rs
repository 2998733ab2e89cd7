//! Inbound frame handling: reading the top-level fields of a JSON command
//! frame and assembling an [`IncomingCommand`] from them.
//!
//! The JSON reading itself is done by serde_json behind trusted wrappers;
//! what each wrapper returns is named by an uninterpreted function of the
//! frame's text, and the extraction pipeline is verified against those
//! names. A frame that does not parse, is not a command, or carries a
//! wrongly typed field yields no command (and therefore no ACK and no
//! Result).

use vstd::prelude::*;

use crate::commands::IncomingCommand;

verus! {

// ---------------------------------------------------------------------------
// What serde_json computes from a frame's text. Each is a function of the
// text alone: the same text always reads the same way.
// ---------------------------------------------------------------------------

/// The string value of the top-level field `key` of the JSON text `s`,
/// when `s` parses and that field holds a string.
pub uninterp spec fn json_str_field(s: Seq<char>, key: Seq<char>) -> Option<Seq<char>>;

/// The value of the top-level field `key` of the JSON text `s`, when `s`
/// parses and that field holds an unsigned integer that fits in u64.
pub uninterp spec fn json_u64_field(s: Seq<char>, key: Seq<char>) -> Option<u64>;

/// The value of the top-level field `key` of the JSON text `s`, when `s`
/// parses and that field holds a boolean.
pub uninterp spec fn json_bool_field(s: Seq<char>, key: Seq<char>) -> Option<bool>;

/// Whether the JSON text `s` parses and has a top-level field `key`.
pub uninterp spec fn json_field_present(s: Seq<char>, key: Seq<char>) -> bool;

/// Whether the JSON text `s` parses and its top-level field `key` is null.
pub uninterp spec fn json_field_null(s: Seq<char>, key: Seq<char>) -> bool;

// ---------------------------------------------------------------------------
// Trusted wrappers around serde_json
// ---------------------------------------------------------------------------

/// Relies on `serde_json::from_str`, `Value::get` and `Value::as_str`: the
/// string value of a top-level field, when the text parses and the field
/// holds a string.
#[verifier::external_body]
pub fn str_field(text: &str, key: &str) -> (r: Option<String>)
    ensures
        r is Some <==> json_str_field(text@, key@) is Some,
        r is Some ==> r->Some_0@ == json_str_field(text@, key@)->Some_0,
{
    let v: serde_json::Value = match serde_json::from_str(text) {
        Ok(v) => v,
        Err(_) => return None,
    };
    match v.get(key) {
        Some(f) => match f.as_str() {
            Some(s) => Some(s.to_owned()),
            None => None,
        },
        None => None,
    }
}

/// Relies on `serde_json::from_str`, `Value::get` and `Value::as_u64`: the
/// u64 value of a top-level field, when the text parses and the field
/// holds an unsigned integer that fits.
#[verifier::external_body]
pub fn u64_field(text: &str, key: &str) -> (r: Option<u64>)
    ensures
        r == json_u64_field(text@, key@),
{
    let v: serde_json::Value = match serde_json::from_str(text) {
        Ok(v) => v,
        Err(_) => return None,
    };
    match v.get(key) {
        Some(f) => f.as_u64(),
        None => None,
    }
}

/// Relies on `serde_json::from_str`, `Value::get` and `Value::as_bool`: the
/// boolean value of a top-level field, when the text parses and the field
/// holds a boolean.
#[verifier::external_body]
pub fn bool_field(text: &str, key: &str) -> (r: Option<bool>)
    ensures
        r == json_bool_field(text@, key@),
{
    let v: serde_json::Value = match serde_json::from_str(text) {
        Ok(v) => v,
        Err(_) => return None,
    };
    match v.get(key) {
        Some(f) => f.as_bool(),
        None => None,
    }
}

/// Relies on `serde_json::from_str` and `Value::get`: whether the text
/// parses as JSON with this top-level field present.
#[verifier::external_body]
pub fn field_present(text: &str, key: &str) -> (r: bool)
    ensures
        r == json_field_present(text@, key@),
{
    match serde_json::from_str::<serde_json::Value>(text) {
        Ok(v) => v.get(key).is_some(),
        Err(_) => false,
    }
}

/// Relies on `serde_json::from_str`, `Value::get` and `Value::is_null`:
/// whether the text parses and this top-level field is null.
#[verifier::external_body]
pub fn field_null(text: &str, key: &str) -> (r: bool)
    ensures
        r == json_field_null(text@, key@),
{
    match serde_json::from_str::<serde_json::Value>(text) {
        Ok(v) => match v.get(key) {
            Some(f) => f.is_null(),
            None => false,
        },
        Err(_) => false,
    }
}

// ---------------------------------------------------------------------------
// Verified extraction
// ---------------------------------------------------------------------------

/// Ghost mirror of [`IncomingCommand`], over character sequences.
pub ghost struct CommandModel {
    pub command_id: Seq<char>,
    pub action: Seq<char>,
    pub timeout_sec: Option<u64>,
    pub graceful: Option<bool>,
    pub command: Option<Seq<char>>,
    pub instances: Option<u32>,
    pub strategy: Option<Seq<char>>,
}

impl IncomingCommand {
    pub open spec fn model(&self) -> CommandModel {
        CommandModel {
            command_id: self.command_id@,
            action: self.action@,
            timeout_sec: self.timeout_sec,
            graceful: self.graceful,
            command: match self.command {
                Some(ref c) => Some(c@),
                None => None,
            },
            instances: self.instances,
            strategy: match self.strategy {
                Some(ref s) => Some(s@),
                None => None,
            },
        }
    }
}

/// How an optional typed field reads from a frame: absent (missing or
/// null), a value, or present with the wrong type (which makes the whole
/// frame malformed).
pub ghost enum FieldRead<T> {
    Absent,
    Value(T),
    Malformed,
}

pub open spec fn read_opt_str(s: Seq<char>, key: Seq<char>) -> FieldRead<Seq<char>> {
    if !json_field_present(s, key) || json_field_null(s, key) {
        FieldRead::Absent
    } else {
        match json_str_field(s, key) {
            Some(v) => FieldRead::Value(v),
            None => FieldRead::Malformed,
        }
    }
}

pub open spec fn read_opt_u64(s: Seq<char>, key: Seq<char>) -> FieldRead<u64> {
    if !json_field_present(s, key) || json_field_null(s, key) {
        FieldRead::Absent
    } else {
        match json_u64_field(s, key) {
            Some(v) => FieldRead::Value(v),
            None => FieldRead::Malformed,
        }
    }
}

pub open spec fn read_opt_bool(s: Seq<char>, key: Seq<char>) -> FieldRead<bool> {
    if !json_field_present(s, key) || json_field_null(s, key) {
        FieldRead::Absent
    } else {
        match json_bool_field(s, key) {
            Some(v) => FieldRead::Value(v),
            None => FieldRead::Malformed,
        }
    }
}

pub open spec fn read_opt_u32(s: Seq<char>, key: Seq<char>) -> FieldRead<u32> {
    match read_opt_u64(s, key) {
        FieldRead::Absent => FieldRead::Absent,
        FieldRead::Value(v) => if v <= u32::MAX {
            FieldRead::Value(v as u32)
        } else {
            FieldRead::Malformed
        },
        FieldRead::Malformed => FieldRead::Malformed,
    }
}

/// The command carried by a frame's text, if any:
/// - the text must parse with a top-level string field `type` equal to
///   `command`;
/// - `command_id` and `action` must be present string fields;
/// - the optional fields must, when present and not null, carry their
///   expected types;
/// - anything else yields no command.
pub open spec fn spec_parse_command(s: Seq<char>) -> Option<CommandModel> {
    if json_str_field(s, "type"@) != Some("command"@) {
        None
    } else {
        match (json_str_field(s, "command_id"@), json_str_field(s, "action"@)) {
            (Some(command_id), Some(action)) => {
                let timeout_sec = read_opt_u64(s, "timeout_sec"@);
                let graceful = read_opt_bool(s, "graceful"@);
                let command = read_opt_str(s, "command"@);
                let instances = read_opt_u32(s, "instances"@);
                let strategy = read_opt_str(s, "strategy"@);
                if timeout_sec is Malformed || graceful is Malformed || command is Malformed
                    || instances is Malformed || strategy is Malformed {
                    None
                } else {
                    Some(
                        CommandModel {
                            command_id,
                            action,
                            timeout_sec: match timeout_sec {
                                FieldRead::Value(v) => Some(v),
                                _ => None,
                            },
                            graceful: match graceful {
                                FieldRead::Value(v) => Some(v),
                                _ => None,
                            },
                            command: match command {
                                FieldRead::Value(v) => Some(v),
                                _ => None,
                            },
                            instances: match instances {
                                FieldRead::Value(v) => Some(v),
                                _ => None,
                            },
                            strategy: match strategy {
                                FieldRead::Value(v) => Some(v),
                                _ => None,
                            },
                        },
                    )
                }
            },
            _ => None,
        }
    }
}

fn opt_u64_field(text: &str, key: &str) -> (r: Result<Option<u64>, ()>)
    ensures
        match read_opt_u64(text@, key@) {
            FieldRead::Absent => r == Ok::<Option<u64>, ()>(None),
            FieldRead::Value(v) => r == Ok::<Option<u64>, ()>(Some(v)),
            FieldRead::Malformed => r is Err,
        },
{
    if !field_present(text, key) || field_null(text, key) {
        Ok(None)
    } else {
        match u64_field(text, key) {
            Some(v) => Ok(Some(v)),
            None => Err(()),
        }
    }
}

fn opt_bool_field(text: &str, key: &str) -> (r: Result<Option<bool>, ()>)
    ensures
        match read_opt_bool(text@, key@) {
            FieldRead::Absent => r == Ok::<Option<bool>, ()>(None),
            FieldRead::Value(v) => r == Ok::<Option<bool>, ()>(Some(v)),
            FieldRead::Malformed => r is Err,
        },
{
    if !field_present(text, key) || field_null(text, key) {
        Ok(None)
    } else {
        match bool_field(text, key) {
            Some(v) => Ok(Some(v)),
            None => Err(()),
        }
    }
}

fn opt_str_field(text: &str, key: &str) -> (r: Result<Option<String>, ()>)
    ensures
        match read_opt_str(text@, key@) {
            FieldRead::Absent => r == Ok::<Option<String>, ()>(None),
            FieldRead::Value(v) => {
                &&& r is Ok
                &&& r->Ok_0 is Some
                &&& r->Ok_0->Some_0@ == v
            },
            FieldRead::Malformed => r is Err,
        },
{
    if !field_present(text, key) || field_null(text, key) {
        Ok(None)
    } else {
        match str_field(text, key) {
            Some(v) => Ok(Some(v)),
            None => Err(()),
        }
    }
}

/// Extracts the command carried by an inbound frame, if any: see
/// [`spec_parse_command`].
pub fn parse_command_text(text: &str) -> (r: Option<IncomingCommand>)
    ensures
        match r {
            Some(c) => spec_parse_command(text@) == Some(c.model()),
            None => spec_parse_command(text@) is None,
        },
{
    let ty = match str_field(text, "type") {
        Some(t) => t,
        None => {
            return None;
        },
    };
    if !crate::text::str_eq(ty.as_str(), "command") {
        return None;
    }
    let command_id = match str_field(text, "command_id") {
        Some(v) => v,
        None => {
            return None;
        },
    };
    let action = match str_field(text, "action") {
        Some(v) => v,
        None => {
            return None;
        },
    };
    let timeout_sec = match opt_u64_field(text, "timeout_sec") {
        Ok(v) => v,
        Err(_) => {
            return None;
        },
    };
    let graceful = match opt_bool_field(text, "graceful") {
        Ok(v) => v,
        Err(_) => {
            return None;
        },
    };
    let command = match opt_str_field(text, "command") {
        Ok(v) => v,
        Err(_) => {
            return None;
        },
    };
    let instances_u64 = match opt_u64_field(text, "instances") {
        Ok(v) => v,
        Err(_) => {
            return None;
        },
    };
    let instances: Option<u32> = match instances_u64 {
        Some(v) => {
            if v <= u32::MAX as u64 {
                Some(v as u32)
            } else {
                return None;
            }
        },
        None => None,
    };
    let strategy = match opt_str_field(text, "strategy") {
        Ok(v) => v,
        Err(_) => {
            return None;
        },
    };
    Some(
        IncomingCommand {
            command_id,
            action,
            timeout_sec,
            graceful,
            command,
            instances,
            strategy,
        },
    )
}

} // verus!
