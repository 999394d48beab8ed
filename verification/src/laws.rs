//! What holds of a handle's bytes across the calls that write and read them.

use vstd::prelude::*;
use vstd::utf8::{decode_utf8, encode_utf8, valid_utf8};
use crate::json::{json_object, json_of_string, json_parse, json_text, string_member};
use crate::plugin::{chosen_name, greeting_value};
use crate::memory::Memory;
use crate::model::HostView;
use serde_json::Value;

verus! {

/// Bytes stored at the start of an allocation that can take them are what a
/// load of the whole allocation begins with, and all of it where they fill
/// the allocation; the allocation keeps its length.
pub proof fn store_then_load_all(host: HostView, m: Memory, b: Seq<u8>)
    requires
        host.can_store(m.offset, 0, b.len()),
    ensures
        m.bytes(host.stored(m.offset, 0, b)).len() == m.bytes(host).len(),
        m.bytes(host.stored(m.offset, 0, b)).take(b.len() as int) == b,
        b.len() == m.bytes(host).len() ==> m.bytes(host.stored(m.offset, 0, b)) == b,
{
    let after = m.bytes(host.stored(m.offset, 0, b));
    assert(after.take(b.len() as int) =~= b);
    if b.len() == m.bytes(host).len() {
        assert(after =~= b);
    }
}

/// The bytes of a handle made from a string are UTF-8 and decode to that
/// string: reading the handle as a string gives the string back.
pub proof fn string_survives_memory(before: HostView, after: HostView, m: Memory, s: Seq<char>)
    requires
        m.fresh_in(before, after, encode_utf8(s)),
    ensures
        valid_utf8(m.bytes(after)),
        decode_utf8(m.bytes(after)) == s,
{
    vstd::utf8::encode_utf8_valid_utf8(s);
    vstd::utf8::encode_utf8_decode_utf8(s);
}

/// The bytes of a handle made from a JSON value are UTF-8 and decode to the
/// value's text: reading the handle as JSON gives what that text parses to.
pub proof fn json_text_survives_memory(before: HostView, after: HostView, m: Memory, v: Value)
    requires
        json_text(v) is Ok,
        m.fresh_in(before, after, encode_utf8(json_text(v)->Ok_0)),
    ensures
        valid_utf8(m.bytes(after)),
        json_parse(decode_utf8(m.bytes(after))) == json_parse(json_text(v)->Ok_0),
{
    string_survives_memory(before, after, m, json_text(v)->Ok_0);
}

/// Input that holds a JSON value with the string member `name` is greeted
/// by that name, whatever else the value holds. The input is not empty: no
/// empty text holds a JSON value.
pub proof fn named_input_is_greeted_by_name(input: Seq<char>, v: Value, n: Seq<char>)
    requires
        input.len() > 0,
        json_parse(input) == Ok::<Value, Seq<char>>(v),
        string_member(v, "name"@) == Some(n),
    ensures
        chosen_name(input) == n,
        greeting_value(input) == json_object("greeting"@, json_of_string("Hello, "@ + n + "!"@)),
{
}

/// Releasing a fresh allocation leaves the memory as it was before the
/// allocation was made.
pub proof fn free_undoes_allocation(before: HostView, after: HostView, m: Memory, bytes: Seq<u8>)
    requires
        before.unused(m.offset),
        m.fresh_in(before, after, bytes),
    ensures
        after.without(m.offset) == before,
{
    assert(after.without(m.offset).blocks =~= before.blocks);
    assert(after.without(m.offset).codes =~= before.codes);
}

} // verus!
