//! A handle on one allocation in the runtime's memory.

use vstd::prelude::*;
use vstd::utf8::{decode_utf8, encode_utf8, valid_utf8};
use crate::error::PdkError;
use crate::host::{window, Host};
use crate::model::{overwrite, zeros, HostView};
use crate::text::{decode, rejects};
use crate::json::{encode, from_bytes, json_parse, json_text};
use serde_json::Value;

verus! {

/// The handle that owns one allocation: its address, and the length it was
/// made with. It cannot be copied, and [`Memory::free`] consumes it.
#[derive(Debug)]
pub struct Memory {
    pub offset: u64,
    pub length: u64,
}

impl Memory {
    /// The bytes that the allocation holds; none where it is not live.
    pub open spec fn bytes(&self, host: HostView) -> Seq<u8> {
        if host.blocks.dom().contains(self.offset) {
            host.blocks[self.offset]
        } else {
            Seq::empty()
        }
    }

    /// Whether `host` after the call is `before` with a fresh allocation that
    /// holds `bytes` and that this handle owns.
    pub open spec fn fresh_in(&self, before: HostView, host: HostView, bytes: Seq<u8>) -> bool {
        &&& self.offset != 0
        &&& !before.blocks.dom().contains(self.offset)
        &&& self.length == bytes.len()
        &&& host == (HostView {
            blocks: before.blocks.insert(self.offset, bytes),
            codes: before.codes.insert(self.offset, 0),
            ..before
        })
    }

    /// Allocates `size` zero bytes.
    pub fn new(host: &mut Host, size: u64) -> (m: Memory)
        ensures
            m.fresh_in(old(host)@, final(host)@, zeros(size as nat)),
    {
        let offset = host.allocate(size);
        Memory { offset, length: size }
    }

    /// The length of the allocation, as the runtime reports it.
    pub fn len(&self, host: &Host) -> (n: u64)
        ensures
            n == self.bytes(host@).len(),
    {
        host.length(self.offset)
    }

    /// Whether the allocation holds no byte.
    pub fn is_empty(&self, host: &Host) -> (r: bool)
        ensures
            r == (self.bytes(host@).len() == 0),
    {
        self.len(host) == 0
    }

    /// Writes `data` into the allocation from `offset` on. A write that does
    /// not lie within the allocation changes nothing.
    pub fn store(&mut self, host: &mut Host, data: &[u8], offset: u64)
        ensures
            *final(self) == *old(self),
            final(host)@ == old(host)@.stored(old(self).offset, offset, data@),
    {
        host.store_u8(self.offset, offset, data);
    }

    /// Writes `data` at the start of the allocation.
    pub fn store_from_start(&mut self, host: &mut Host, data: &[u8])
        ensures
            *final(self) == *old(self),
            final(host)@ == old(host)@.stored(old(self).offset, 0, data@),
    {
        self.store(host, data, 0);
    }

    /// Copies `length` bytes of the allocation from `offset` on; zeros where
    /// that range does not lie within the allocation.
    pub fn load(&self, host: &Host, offset: u64, length: u64) -> (r: Vec<u8>)
        ensures
            r@ == if host@.blocks.dom().contains(self.offset) {
                window(host@.blocks[self.offset], offset, length)
            } else {
                zeros(length as nat)
            },
    {
        host.load_u8(self.offset, offset, length)
    }

    /// Copies the whole allocation.
    pub fn load_all(&self, host: &Host) -> (r: Vec<u8>)
        ensures
            r@ == self.bytes(host@),
    {
        let n = self.len(host);
        let r = self.load(host, 0, n);
        assert(r@ =~= self.bytes(host@));
        r
    }

    /// Allocates exactly the UTF-8 bytes of `s` and stores them.
    pub fn from_string(host: &mut Host, s: &str) -> (m: Memory)
        ensures
            m.fresh_in(old(host)@, final(host)@, encode_utf8(s@)),
    {
        let bytes = s.as_bytes();
        let mut m = Memory::new(host, bytes.len() as u64);
        m.store_from_start(host, bytes);
        proof {
            let z = zeros(bytes@.len());
            assert(overwrite(z, 0, bytes@) =~= bytes@);
            assert(host@.blocks =~= old(host)@.blocks.insert(m.offset, bytes@));
        }
        m
    }

    /// Reads the whole allocation as UTF-8 text.
    pub fn to_string(&self, host: &Host) -> (r: Result<String, PdkError>)
        ensures
            valid_utf8(self.bytes(host@)) ==> (r matches Ok(s) && s@ == decode_utf8(
                self.bytes(host@),
            )),
            !valid_utf8(self.bytes(host@)) ==> rejects(r, self.bytes(host@)),
    {
        decode(self.load_all(host))
    }

    /// Allocates exactly the JSON text of `data` and stores it. Where `data`
    /// has no JSON text, nothing is allocated.
    pub fn from_json(host: &mut Host, data: &Value) -> (r: Result<Memory, PdkError>)
        ensures
            match json_text(*data) {
                Ok(t) => r matches Ok(m) && m.fresh_in(
                    old(host)@,
                    final(host)@,
                    encode_utf8(t),
                ),
                Err(why) => r matches Err(PdkError::Encode(m)) && m@ == why && final(host)@ == old(
                    host,
                )@,
            },
    {
        match encode(data) {
            Ok(json) => Ok(Memory::from_string(host, json.as_str())),
            Err(e) => Err(e),
        }
    }

    /// Reads the whole allocation as JSON.
    pub fn to_json(&self, host: &Host) -> (r: Result<Value, PdkError>)
        ensures
            !valid_utf8(self.bytes(host@)) ==> rejects(r, self.bytes(host@)),
            valid_utf8(self.bytes(host@)) ==> match json_parse(decode_utf8(self.bytes(host@))) {
                Ok(v) => r == Ok::<Value, PdkError>(v),
                Err(why) => r matches Err(PdkError::Decode(m)) && m@ == why,
            },
    {
        from_bytes(self.load_all(host))
    }

    /// Releases the allocation; the handle is gone after the call.
    pub fn free(self, host: &mut Host)
        ensures
            final(host)@ == old(host)@.without(self.offset),
    {
        host.free(self.offset);
    }
}

} // verus!
