//! What a plugin asks of the runtime: input and output, the error channel,
//! configuration, variables and the log.

use vstd::prelude::*;
use vstd::utf8::{decode_utf8, encode_utf8, valid_utf8};
use serde_json::Value;
use crate::error::PdkError;
use crate::host::{is_null, Host};
use crate::json::{encode, from_bytes, json_parse, json_text};
use crate::model::{HostView, LogLevel};
use crate::text::{decode, rejects};

verus! {

/// The text stored under `key`: nothing where the key is unset or its bytes
/// are not UTF-8.
pub open spec fn text_at(entries: Map<Seq<u8>, Seq<u8>>, key: Seq<u8>) -> Option<Seq<char>> {
    if entries.dom().contains(key) && valid_utf8(entries[key]) {
        Some(decode_utf8(entries[key]))
    } else {
        None
    }
}

/// What a lookup comes to as text: nothing where nothing was found or what
/// was found is not UTF-8.
pub fn found_text(found: Option<Vec<u8>>) -> (r: Option<String>)
    ensures
        match found {
            Some(b) => if valid_utf8(b@) {
                r matches Some(s) && s@ == decode_utf8(b@)
            } else {
                r is None
            },
            None => r is None,
        },
{
    match found {
        Some(data) => match decode(data) {
            Ok(s) => Some(s),
            Err(_) => None,
        },
        None => None,
    }
}

impl Host {
    /// The whole input of the invocation.
    pub fn input(&self) -> (r: Vec<u8>)
        ensures
            r@ == self@.input,
    {
        let n = self.input_length();
        let r = self.input_load(0, n);
        assert(r@ =~= self@.input);
        r
    }

    /// The input as UTF-8 text.
    pub fn input_string(&self) -> (r: Result<String, PdkError>)
        ensures
            valid_utf8(self@.input) ==> (r matches Ok(s) && s@ == decode_utf8(self@.input)),
            !valid_utf8(self@.input) ==> rejects(r, self@.input),
    {
        decode(self.input())
    }

    /// The input as JSON.
    pub fn input_json(&self) -> (r: Result<Value, PdkError>)
        ensures
            !valid_utf8(self@.input) ==> rejects(r, self@.input),
            valid_utf8(self@.input) ==> match json_parse(decode_utf8(self@.input)) {
                Ok(v) => r == Ok::<Value, PdkError>(v),
                Err(why) => r matches Err(PdkError::Decode(m)) && m@ == why,
            },
    {
        from_bytes(self.input())
    }

    /// Installs `data` as the invocation's output.
    pub fn output(&mut self, data: &[u8])
        ensures
            final(self)@ == (HostView { output: Some(data@), ..old(self)@ }),
    {
        self.output_set(data);
    }

    /// Installs the UTF-8 bytes of `s` as the invocation's output.
    pub fn output_string(&mut self, s: &str)
        ensures
            final(self)@ == (HostView { output: Some(encode_utf8(s@)), ..old(self)@ }),
    {
        self.output(s.as_bytes());
    }

    /// Installs the JSON text of `data` as the invocation's output. Where
    /// `data` has no JSON text, no output is set.
    pub fn output_json(&mut self, data: &Value) -> (r: Result<(), PdkError>)
        ensures
            match json_text(*data) {
                Ok(t) => r is Ok && final(self)@ == (HostView {
                    output: Some(encode_utf8(t)),
                    ..old(self)@
                }),
                Err(why) => r matches Err(PdkError::Encode(m)) && m@ == why && final(self)@ == old(
                    self,
                )@,
            },
    {
        match encode(data) {
            Ok(json) => {
                self.output_string(json.as_str());
                Ok(())
            },
            Err(e) => Err(e),
        }
    }

    /// Installs `message` as the invocation's error.
    pub fn error(&mut self, message: &str)
        ensures
            final(self)@ == (HostView { error: Some(encode_utf8(message@)), ..old(self)@ }),
    {
        self.error_set(message.as_bytes());
    }

    /// The configuration value under `key`, as text: nothing where the key
    /// is unset or its value is not UTF-8. The runtime is left as it was.
    pub fn config(&mut self, key: &str) -> (r: Option<String>)
        ensures
            final(self)@ == old(self)@,
            !old(self)@.config.dom().contains(encode_utf8(key@)) ==> r is None,
            match r {
                Some(s) => text_at(old(self)@.config, encode_utf8(key@)) == Some(s@),
                None => text_at(old(self)@.config, encode_utf8(key@)) is None,
            },
    {
        let p = self.config_get(key.as_bytes());
        if is_null(p) {
            return found_text(None);
        }
        let data = self.fetch(p);
        proof {
            assert(self@.blocks =~= old(self)@.blocks);
            assert(self@.codes =~= old(self)@.codes);
        }
        found_text(Some(data))
    }

    /// The variable `name`: nothing where it is unset. The runtime is left
    /// as it was.
    pub fn var_get(&mut self, name: &str) -> (r: Option<Vec<u8>>)
        ensures
            final(self)@ == old(self)@,
            match r {
                Some(v) => old(self)@.vars.dom().contains(encode_utf8(name@)) && v@ == old(
                    self,
                )@.vars[encode_utf8(name@)],
                None => !old(self)@.vars.dom().contains(encode_utf8(name@)),
            },
    {
        let p = self.var_load(name.as_bytes());
        if is_null(p) {
            return None;
        }
        let data = self.fetch(p);
        proof {
            assert(self@.blocks =~= old(self)@.blocks);
            assert(self@.codes =~= old(self)@.codes);
        }
        Some(data)
    }

    /// Stores `value` as the variable `name`.
    pub fn var_set(&mut self, name: &str, value: &[u8])
        ensures
            final(self)@ == (HostView {
                vars: old(self)@.vars.insert(encode_utf8(name@), value@),
                ..old(self)@
            }),
    {
        self.var_store(name.as_bytes(), value);
    }

    /// Stores the UTF-8 bytes of `value` as the variable `name`.
    pub fn var_set_string(&mut self, name: &str, value: &str)
        ensures
            final(self)@ == (HostView {
                vars: old(self)@.vars.insert(encode_utf8(name@), encode_utf8(value@)),
                ..old(self)@
            }),
    {
        self.var_set(name, value.as_bytes());
    }

    /// Logs `message` as information.
    pub fn log_info(&mut self, message: &str)
        ensures
            final(self)@ == (HostView {
                logs: old(self)@.logs.push((LogLevel::Info, encode_utf8(message@))),
                ..old(self)@
            }),
    {
        self.log_at(LogLevel::Info, message.as_bytes());
    }

    /// Logs `message` for debugging.
    pub fn log_debug(&mut self, message: &str)
        ensures
            final(self)@ == (HostView {
                logs: old(self)@.logs.push((LogLevel::Debug, encode_utf8(message@))),
                ..old(self)@
            }),
    {
        self.log_at(LogLevel::Debug, message.as_bytes());
    }

    /// Logs `message` as a warning.
    pub fn log_warn(&mut self, message: &str)
        ensures
            final(self)@ == (HostView {
                logs: old(self)@.logs.push((LogLevel::Warn, encode_utf8(message@))),
                ..old(self)@
            }),
    {
        self.log_at(LogLevel::Warn, message.as_bytes());
    }

    /// Logs `message` as a failure.
    pub fn log_error(&mut self, message: &str)
        ensures
            final(self)@ == (HostView {
                logs: old(self)@.logs.push((LogLevel::Failure, encode_utf8(message@))),
                ..old(self)@
            }),
    {
        self.log_at(LogLevel::Failure, message.as_bytes());
    }
}

} // verus!
