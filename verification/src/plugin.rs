//! The calling convention of an exported entry point, and the greeting
//! plugin that follows it.

use vstd::prelude::*;
use vstd::string::StringExecFns;
use vstd::utf8::{decode_utf8, encode_utf8, valid_utf8};
use serde_json::Value;
use crate::error::PdkError;
use crate::host::{join_bytes, Host};
use crate::json::{
    decode_json, encode, json_object, json_of_string, json_parse, json_text, record,
    string_field, string_member,
};
use crate::model::{HostView, LogLevel};
use crate::text::utf8_error_text;

verus! {

/// The name to greet for the input text `input`: a fallback where the input
/// is empty; the string member `name` where the input is a JSON value that
/// has one; the whole input otherwise.
///
/// The input is read as any JSON value, not as a record with the one field
/// `name`. So an array is never read as a list of fields (`["Ada"]` is
/// greeted whole), and where an object holds `name` more than once, its
/// last value is the name.
pub open spec fn chosen_name(input: Seq<char>) -> Seq<char> {
    if input.len() == 0 {
        "World"@
    } else {
        match json_parse(input) {
            Ok(v) => match string_member(v, "name"@) {
                Some(n) => n,
                None => input,
            },
            Err(_) => input,
        }
    }
}

/// The message of the failure to read input bytes that are not UTF-8.
pub open spec fn read_failure(input: Seq<u8>) -> Seq<char> {
    "Failed to read input: "@ + utf8_error_text(input)
}

/// The greeting for `name`.
pub open spec fn greeting_text(name: Seq<char>) -> Seq<char> {
    "Hello, "@ + name + "!"@
}

/// The value that the greeting plugin returns on the input text `input`.
pub open spec fn greeting_value(input: Seq<char>) -> Value {
    json_object("greeting"@, json_of_string(greeting_text(chosen_name(input))))
}

/// The log line that reports `greeting`.
pub open spec fn greeting_log(greeting: Seq<char>) -> Seq<u8> {
    encode_utf8("Created greeting: "@) + encode_utf8(greeting)
}

/// The log after the plugin's function has reported that it was called.
pub open spec fn called(logs: Seq<(LogLevel, Seq<u8>)>) -> Seq<(LogLevel, Seq<u8>)> {
    logs.push((LogLevel::Debug, encode_utf8("Hello function called"@)))
}

/// The log after the plugin's function has reported the call and the
/// greeting it made for the input text `input`.
pub open spec fn greeted(logs: Seq<(LogLevel, Seq<u8>)>, input: Seq<char>) -> Seq<
    (LogLevel, Seq<u8>),
> {
    called(logs).push((LogLevel::Info, greeting_log(greeting_text(chosen_name(input)))))
}

/// The name to greet for the input text `input`.
pub fn pick_name(input: String) -> (name: String)
    ensures
        name@ == chosen_name(input@),
{
    if input.as_str().is_empty() {
        return "World".to_owned();
    }
    match decode_json(input.as_str()) {
        Ok(v) => match string_field(&v, "name") {
            Some(n) => n,
            None => input,
        },
        Err(_) => input,
    }
}

/// The greeting for `name`.
pub fn greet(name: &str) -> (greeting: String)
    ensures
        greeting@ == greeting_text(name@),
{
    let mut greeting = "Hello, ".to_owned();
    greeting.append(name);
    greeting.append("!");
    greeting
}

/// Ends an invocation whose result was serialized already: installs the
/// text as output and returns 0, or installs the error's message as the
/// error and returns 1.
pub fn export_encoded(host: &mut Host, encoded: Result<String, PdkError>) -> (status: i32)
    ensures
        match encoded {
            Ok(json) => status == 0 && final(host)@ == (HostView {
                output: Some(encode_utf8(json@)),
                ..old(host)@
            }),
            Err(e) => status == 1 && final(host)@ == (HostView {
                error: Some(encode_utf8(e.text())),
                ..old(host)@
            }),
        },
{
    match encoded {
        Ok(json) => {
            host.output_string(json.as_str());
            0
        },
        Err(e) => {
            let reason = e.message();
            host.error(reason.as_str());
            1
        },
    }
}

/// Ends an invocation with the result of the guest function. A value is
/// serialized and installed as output, and the status is 0; where it
/// cannot be serialized, the serializer's error is installed and the
/// status is 1. A failure's message is installed as the error, and the
/// status is 1. Either the output or the error is set, never both.
pub fn export_plugin(host: &mut Host, result: Result<Value, String>) -> (status: i32)
    ensures
        match result {
            Ok(v) => match json_text(v) {
                Ok(t) => status == 0 && final(host)@ == (HostView {
                    output: Some(encode_utf8(t)),
                    ..old(host)@
                }),
                Err(why) => status == 1 && final(host)@ == (HostView {
                    error: Some(encode_utf8(why)),
                    ..old(host)@
                }),
            },
            Err(message) => status == 1 && final(host)@ == (HostView {
                error: Some(encode_utf8(message@)),
                ..old(host)@
            }),
        },
        old(host)@.output is None && old(host)@.error is None ==> (final(host)@.output is Some)
            != (final(host)@.error is Some),
{
    match result {
        Ok(v) => {
            let encoded = encode(&v);
            export_encoded(host, encoded)
        },
        Err(message) => {
            host.error(message.as_str());
            1
        },
    }
}

/// The greeting plugin's function: logs the call, reads the input, picks
/// the name, builds the greeting, logs it and returns it as the member
/// `greeting` of an object. Input that is not UTF-8 is a failure.
pub fn hello_impl(host: &mut Host) -> (r: Result<Value, String>)
    ensures
        valid_utf8(old(host)@.input) ==> r == Ok::<Value, String>(
            greeting_value(decode_utf8(old(host)@.input)),
        ) && final(host)@ == (HostView {
            logs: greeted(old(host)@.logs, decode_utf8(old(host)@.input)),
            ..old(host)@
        }),
        !valid_utf8(old(host)@.input) ==> (r matches Err(m) && m@ == read_failure(
            old(host)@.input,
        )) && final(host)@ == (HostView {
            logs: called(old(host)@.logs),
            ..old(host)@
        }),
{
    host.log_debug("Hello function called");
    let name = match host.input_string() {
        Ok(s) => pick_name(s),
        Err(e) => {
            let mut message = "Failed to read input: ".to_owned();
            message.append(e.message().as_str());
            return Err(message);
        },
    };
    let greeting = greet(name.as_str());
    let line = join_bytes("Created greeting: ".as_bytes(), greeting.as_str().as_bytes());
    host.log_at(LogLevel::Info, line.as_slice());
    Ok(record("greeting", greeting.as_str()))
}

/// The greeting plugin's entry point: runs the function and ends the
/// invocation with its result. The status is 0 and the output is the
/// JSON text of the greeting object, or 1 and the error says why.
pub fn hello(host: &mut Host) -> (status: i32)
    ensures
        valid_utf8(old(host)@.input) ==> match json_text(
            greeting_value(decode_utf8(old(host)@.input)),
        ) {
            Ok(t) => status == 0 && final(host)@ == (HostView {
                logs: greeted(old(host)@.logs, decode_utf8(old(host)@.input)),
                output: Some(encode_utf8(t)),
                ..old(host)@
            }),
            Err(why) => status == 1 && final(host)@ == (HostView {
                logs: greeted(old(host)@.logs, decode_utf8(old(host)@.input)),
                error: Some(encode_utf8(why)),
                ..old(host)@
            }),
        },
        !valid_utf8(old(host)@.input) ==> status == 1 && final(host)@ == (HostView {
            logs: called(old(host)@.logs),
            error: Some(encode_utf8(read_failure(old(host)@.input))),
            ..old(host)@
        }),
{
    let r = hello_impl(host);
    export_plugin(host, r)
}
} // verus!
