//! The state of the embedding runtime, as a plugin can observe it.

use vstd::prelude::*;

verus! {

/// The four severities at which a plugin can log.
#[derive(Debug, Clone, Copy, PartialEq, Eq, Structural)]
pub enum LogLevel {
    Info,
    Debug,
    Warn,
    Failure,
}

/// One allocation in the runtime's memory: its bytes, and the status code it
/// carries when it stands for a completed request.
pub struct Block {
    pub bytes: Vec<u8>,
    pub status: i32,
}

/// What the transport answers to a request: a status code, headers and an
/// optional body.
pub struct HttpReply {
    pub status: i32,
    pub headers: Vec<(String, String)>,
    pub body: Option<Vec<u8>>,
}

/// The mathematical value of an [`HttpReply`].
pub struct ReplyView {
    pub status: i32,
    pub headers: Seq<(Seq<char>, Seq<char>)>,
    pub body: Option<Seq<u8>>,
}

/// The mathematical value of a [`crate::host::Host`].
///
/// `blocks` maps each live address to the bytes allocated there; address 0 is
/// never live. `codes` maps each live address to the status code it carries.
/// `vars` and `config` map a key to the bytes last stored under it.
#[verifier::ext_equal]
pub struct HostView {
    pub input: Seq<u8>,
    pub output: Option<Seq<u8>>,
    pub error: Option<Seq<u8>>,
    pub config: Map<Seq<u8>, Seq<u8>>,
    pub vars: Map<Seq<u8>, Seq<u8>>,
    pub logs: Seq<(LogLevel, Seq<u8>)>,
    pub blocks: Map<u64, Seq<u8>>,
    pub codes: Map<u64, i32>,
    pub reply: Option<ReplyView>,
}

impl HostView {
    /// Whether `p` can be the address of a new allocation: it is not null and
    /// nothing lives there.
    pub open spec fn unused(self, p: u64) -> bool {
        p != 0 && !self.blocks.dom().contains(p) && !self.codes.dom().contains(p)
    }

    /// Whether a write of `len` bytes at `offset` lies within the live
    /// allocation at `p`.
    pub open spec fn can_store(self, p: u64, offset: u64, len: nat) -> bool {
        self.blocks.dom().contains(p) && offset + len <= self.blocks[p].len()
    }

    /// This state after `data` was written into the allocation at `p` from
    /// `offset` on: a write that does not lie within a live allocation
    /// changes nothing.
    pub open spec fn stored(self, p: u64, offset: u64, data: Seq<u8>) -> HostView {
        if self.can_store(p, offset, data.len()) {
            HostView {
                blocks: self.blocks.insert(p, overwrite(self.blocks[p], offset as int, data)),
                ..self
            }
        } else {
            self
        }
    }

    /// This state without the allocation at `p`.
    pub open spec fn without(self, p: u64) -> HostView {
        HostView { blocks: self.blocks.remove(p), codes: self.codes.remove(p), ..self }
    }
}

/// The view of an optional byte buffer.
pub open spec fn opt_bytes(b: Option<Vec<u8>>) -> Option<Seq<u8>> {
    match b {
        Some(v) => Some(v@),
        None => None,
    }
}

/// The view of a list of string pairs.
pub open spec fn pairs_view(pairs: Seq<(String, String)>) -> Seq<(Seq<char>, Seq<char>)> {
    Seq::new(pairs.len(), |i: int| (pairs[i].0@, pairs[i].1@))
}

/// The view of a log.
pub open spec fn logs_view(logs: Seq<(LogLevel, Vec<u8>)>) -> Seq<(LogLevel, Seq<u8>)> {
    Seq::new(logs.len(), |i: int| (logs[i].0, logs[i].1@))
}

/// The bytes that the latest entry for `key` holds, if there is one.
pub open spec fn lookup(entries: Seq<(Vec<u8>, Vec<u8>)>, key: Seq<u8>) -> Option<Seq<u8>>
    decreases entries.len(),
{
    if entries.len() == 0 {
        None
    } else if entries.last().0@ == key {
        Some(entries.last().1@)
    } else {
        lookup(entries.drop_last(), key)
    }
}

/// The key/value mapping that a list of entries stands for: later entries
/// shadow earlier ones.
pub open spec fn table(entries: Seq<(Vec<u8>, Vec<u8>)>) -> Map<Seq<u8>, Seq<u8>> {
    Map::new(
        |k: Seq<u8>| lookup(entries, k) is Some,
        |k: Seq<u8>| lookup(entries, k).unwrap(),
    )
}

/// Whether `p` is the address of a live block among `cells`.
pub open spec fn live_at(cells: Seq<Option<Block>>, p: u64) -> bool {
    1 <= p <= cells.len() && cells[p - 1] is Some
}

/// The live allocations among `cells`, by address.
pub open spec fn block_map(cells: Seq<Option<Block>>) -> Map<u64, Seq<u8>> {
    Map::new(|p: u64| live_at(cells, p), |p: u64| cells[p - 1].unwrap().bytes@)
}

/// The status codes of the live allocations among `cells`, by address.
pub open spec fn code_map(cells: Seq<Option<Block>>) -> Map<u64, i32> {
    Map::new(|p: u64| live_at(cells, p), |p: u64| cells[p - 1].unwrap().status)
}

/// `n` zero bytes.
pub open spec fn zeros(n: nat) -> Seq<u8> {
    Seq::new(n, |i: int| 0u8)
}

/// `bytes` with `data` written over it from position `offset` on.
pub open spec fn overwrite(bytes: Seq<u8>, offset: int, data: Seq<u8>) -> Seq<u8>
    recommends
        0 <= offset,
        offset + data.len() <= bytes.len(),
{
    Seq::new(
        bytes.len(),
        |i: int| if offset <= i < offset + data.len() { data[i - offset] } else { bytes[i] },
    )
}

/// The mapping `base` after each header was stored under `prefix` followed by
/// the header's name, in order.
pub open spec fn with_headers(
    base: Map<Seq<u8>, Seq<u8>>,
    prefix: Seq<u8>,
    headers: Seq<(Seq<char>, Seq<char>)>,
) -> Map<Seq<u8>, Seq<u8>>
    decreases headers.len(),
{
    if headers.len() == 0 {
        base
    } else {
        with_headers(base, prefix, headers.drop_last()).insert(
            prefix + vstd::utf8::encode_utf8(headers.last().0),
            vstd::utf8::encode_utf8(headers.last().1),
        )
    }
}

/// `base` with `value` stored under `key`, where there is a value.
pub open spec fn with_optional(
    base: Map<Seq<u8>, Seq<u8>>,
    key: Seq<u8>,
    value: Option<Seq<u8>>,
) -> Map<Seq<u8>, Seq<u8>> {
    match value {
        Some(v) => base.insert(key, v),
        None => base,
    }
}

/// The variable store `base` after an answer's headers and body were stored
/// in it under their reserved keys.
pub open spec fn reply_vars(base: Map<Seq<u8>, Seq<u8>>, reply: ReplyView) -> Map<
    Seq<u8>,
    Seq<u8>,
> {
    with_optional(
        with_headers(base, vstd::utf8::encode_utf8("response:header:"@), reply.headers),
        vstd::utf8::encode_utf8("response:body"@),
        reply.body,
    )
}

/// Whether two byte strings are equal.
pub fn same_bytes(a: &[u8], b: &[u8]) -> (r: bool)
    ensures
        r == (a@ == b@),
{
    if a.len() != b.len() {
        return false;
    }
    let mut i: usize = 0;
    while i < a.len()
        invariant
            a.len() == b.len(),
            i <= a.len(),
            forall|j: int| 0 <= j < i ==> a@[j] == b@[j],
        decreases a.len() - i,
    {
        if a[i] != b[i] {
            return false;
        }
        i += 1;
    }
    assert(a@ =~= b@);
    true
}

/// The index of the latest entry for `key`, if there is one.
pub fn find(entries: &Vec<(Vec<u8>, Vec<u8>)>, key: &[u8]) -> (r: Option<usize>)
    ensures
        match r {
            Some(i) => i < entries.len() && entries[i as int].0@ == key@ && lookup(
                entries@,
                key@,
            ) == Some(entries[i as int].1@),
            None => lookup(entries@, key@) is None,
        },
{
    let mut i: usize = entries.len();
    assert(entries@.take(i as int) =~= entries@);
    while i > 0
        invariant
            i <= entries.len(),
            lookup(entries@, key@) == lookup(entries@.take(i as int), key@),
        decreases i,
    {
        let ghost prefix = entries@.take(i as int);
        assert(prefix.last() == entries[i - 1]);
        assert(prefix.drop_last() =~= entries@.take(i - 1));
        if same_bytes(entries[i - 1].0.as_slice(), key) {
            return Some(i - 1);
        }
        i -= 1;
    }
    None
}

} // verus!
