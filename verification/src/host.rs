//! The runtime that embeds a plugin, and the calls a plugin can make into it.

use vstd::prelude::*;
use vstd::slice::{slice_subrange, slice_to_vec};
use crate::model::{
    block_map, code_map, find, logs_view, opt_bytes, overwrite, pairs_view, table, with_headers,
    reply_vars, zeros, Block, HostView, HttpReply, LogLevel, ReplyView,
};

verus! {

/// The embedding runtime, as one plugin instance sees it during one
/// invocation: the invocation's input, the output and error channels, the
/// configuration, the variable store, the log, the linear memory and the
/// answer the transport holds ready.
pub struct Host {
    pub input: Vec<u8>,
    pub output: Option<Vec<u8>>,
    pub error: Option<Vec<u8>>,
    pub config: Vec<(Vec<u8>, Vec<u8>)>,
    pub vars: Vec<(Vec<u8>, Vec<u8>)>,
    pub logs: Vec<(LogLevel, Vec<u8>)>,
    pub cells: Vec<Option<Block>>,
    pub reply: Option<HttpReply>,
}

impl View for Host {
    type V = HostView;

    open spec fn view(&self) -> HostView {
        HostView {
            input: self.input@,
            output: opt_bytes(self.output),
            error: opt_bytes(self.error),
            config: table(self.config@),
            vars: table(self.vars@),
            logs: logs_view(self.logs@),
            blocks: block_map(self.cells@),
            codes: code_map(self.cells@),
            reply: match self.reply {
                Some(r) => Some(
                    ReplyView {
                        status: r.status,
                        headers: pairs_view(r.headers@),
                        body: opt_bytes(r.body),
                    },
                ),
                None => None,
            },
        }
    }
}

/// The `len` bytes of `bytes` from `offset` on; zeros where that range does
/// not lie within `bytes`.
pub open spec fn window(bytes: Seq<u8>, offset: u64, len: u64) -> Seq<u8> {
    if offset + len <= bytes.len() {
        bytes.subrange(offset as int, offset + len)
    } else {
        zeros(len as nat)
    }
}

/// Whether `p` is the null address, which stands for "nothing there".
pub fn is_null(p: u64) -> (r: bool)
    ensures
        r == (p == 0),
{
    p == 0
}

/// `n` zero bytes.
pub fn zero_bytes(n: u64) -> (r: Vec<u8>)
    ensures
        r@ == zeros(n as nat),
{
    let mut r: Vec<u8> = Vec::new();
    let mut i: u64 = 0;
    while i < n
        invariant
            i <= n,
            r@ == zeros(i as nat),
        decreases n - i,
    {
        r.push(0u8);
        i += 1;
        assert(r@ =~= zeros(i as nat));
    }
    r
}

/// Copies a window out of `bytes`.
pub fn read_window(bytes: &[u8], offset: u64, len: u64) -> (r: Vec<u8>)
    ensures
        r@ == window(bytes@, offset, len),
{
    if offset <= bytes.len() as u64 && len <= bytes.len() as u64 - offset {
        slice_to_vec(slice_subrange(bytes, offset as usize, (offset + len) as usize))
    } else {
        zero_bytes(len)
    }
}

/// `bytes` with `data` written over it at `offset`.
pub fn write_window(bytes: &[u8], offset: usize, data: &[u8]) -> (r: Vec<u8>)
    requires
        offset + data@.len() <= bytes@.len(),
    ensures
        r@ == overwrite(bytes@, offset as int, data@),
{
    let mut r: Vec<u8> = Vec::new();
    let mut i: usize = 0;
    while i < bytes.len()
        invariant
            i <= bytes.len(),
            offset + data@.len() <= bytes@.len(),
            r@.len() == i,
            forall|j: int| 0 <= j < i ==> r@[j] == overwrite(bytes@, offset as int, data@)[j],
        decreases bytes.len() - i,
    {
        if offset <= i && i - offset < data.len() {
            r.push(data[i - offset]);
        } else {
            r.push(bytes[i]);
        }
        i += 1;
    }
    assert(r@ =~= overwrite(bytes@, offset as int, data@));
    r
}

/// `prefix` followed by `rest`.
pub fn join_bytes(prefix: &[u8], rest: &[u8]) -> (r: Vec<u8>)
    ensures
        r@ == prefix@ + rest@,
{
    let mut r: Vec<u8> = slice_to_vec(prefix);
    let mut i: usize = 0;
    while i < rest.len()
        invariant
            i <= rest.len(),
            r@ == prefix@ + rest@.take(i as int),
        decreases rest.len() - i,
    {
        r.push(rest[i]);
        i += 1;
        assert(r@ =~= prefix@ + rest@.take(i as int));
    }
    assert(rest@.take(rest.len() as int) =~= rest@);
    r
}

/// Stores `value` under `key` among `entries`.
pub fn put(entries: &mut Vec<(Vec<u8>, Vec<u8>)>, key: &[u8], value: &[u8])
    ensures
        table(final(entries)@) == table(old(entries)@).insert(key@, value@),
{
    entries.push((slice_to_vec(key), slice_to_vec(value)));
    assert(entries@.drop_last() =~= old(entries)@);
    assert(table(entries@) =~= table(old(entries)@).insert(key@, value@));
}

/// Stores each header's value among `entries`, under `prefix` followed by the
/// header's name.
pub fn put_headers(
    entries: &mut Vec<(Vec<u8>, Vec<u8>)>,
    prefix: &[u8],
    headers: &Vec<(String, String)>,
)
    ensures
        table(final(entries)@) == with_headers(
            table(old(entries)@),
            prefix@,
            pairs_view(headers@),
        ),
{
    let mut i: usize = 0;
    assert(pairs_view(headers@).take(0) =~= Seq::empty());
    while i < headers.len()
        invariant
            i <= headers.len(),
            table(entries@) == with_headers(
                table(old(entries)@),
                prefix@,
                pairs_view(headers@).take(i as int),
            ),
        decreases headers.len() - i,
    {
        let key = join_bytes(prefix, headers[i].0.as_str().as_bytes());
        put(entries, key.as_slice(), headers[i].1.as_str().as_bytes());
        proof {
            let all = pairs_view(headers@);
            assert(all.take(i + 1).drop_last() =~= all.take(i as int));
            assert(all.take(i + 1).last() == all[i as int]);
        }
        i += 1;
    }
    assert(pairs_view(headers@).take(headers.len() as int) =~= pairs_view(headers@));
}

impl Host {
    /// A runtime that holds `input` for the plugin and nothing else.
    pub fn new(input: Vec<u8>) -> (host: Host)
        ensures
            host@ == (HostView {
                input: input@,
                output: None,
                error: None,
                config: Map::empty(),
                vars: Map::empty(),
                logs: Seq::empty(),
                blocks: Map::empty(),
                codes: Map::empty(),
                reply: None,
            }),
    {
        let host = Host {
            input,
            output: None,
            error: None,
            config: Vec::new(),
            vars: Vec::new(),
            logs: Vec::new(),
            cells: Vec::new(),
            reply: None,
        };
        assert(host@ =~= (HostView {
            input: input@,
            output: None,
            error: None,
            config: Map::empty(),
            vars: Map::empty(),
            logs: Seq::empty(),
            blocks: Map::empty(),
            codes: Map::empty(),
            reply: None,
        }));
        host
    }

    /// The length of the invocation's input.
    pub fn input_length(&self) -> (n: u64)
        ensures
            n == self@.input.len(),
    {
        self.input.len() as u64
    }

    /// Copies `len` bytes of the input from `offset` on.
    pub fn input_load(&self, offset: u64, len: u64) -> (r: Vec<u8>)
        ensures
            r@ == window(self@.input, offset, len),
    {
        read_window(self.input.as_slice(), offset, len)
    }

    /// Installs `data` as the invocation's output.
    pub fn output_set(&mut self, data: &[u8])
        ensures
            final(self)@ == (HostView { output: Some(data@), ..old(self)@ }),
    {
        self.output = Some(slice_to_vec(data));
    }

    /// Installs `data` as the invocation's error.
    pub fn error_set(&mut self, data: &[u8])
        ensures
            final(self)@ == (HostView { error: Some(data@), ..old(self)@ }),
    {
        self.error = Some(slice_to_vec(data));
    }

    fn place(&mut self, bytes: Vec<u8>, status: i32) -> (p: u64)
        ensures
            old(self)@.unused(p),
            final(self)@ == (HostView {
                blocks: old(self)@.blocks.insert(p, bytes@),
                codes: old(self)@.codes.insert(p, status),
                ..old(self)@
            }),
    {
        self.cells.push(Some(Block { bytes, status }));
        let p: u64 = self.cells.len() as u64;
        assert(!old(self)@.codes.dom().contains(p));
        assert(self@.blocks =~= old(self)@.blocks.insert(p, bytes@));
        assert(self@.codes =~= old(self)@.codes.insert(p, status));
        p
    }

    /// Allocates `n` zero bytes and returns their address, which is not null
    /// and was not live before.
    pub fn allocate(&mut self, n: u64) -> (p: u64)
        ensures
            old(self)@.unused(p),
            final(self)@ == (HostView {
                blocks: old(self)@.blocks.insert(p, zeros(n as nat)),
                codes: old(self)@.codes.insert(p, 0),
                ..old(self)@
            }),
    {
        let bytes = zero_bytes(n);
        self.place(bytes, 0)
    }

    /// Releases the allocation at `p`; nothing changes where `p` is not live.
    pub fn free(&mut self, p: u64)
        ensures
            final(self)@ == old(self)@.without(p),
    {
        if 1 <= p && p <= self.cells.len() as u64 {
            self.cells.set((p - 1) as usize, None);
        }
        assert(self@.blocks =~= old(self)@.blocks.remove(p));
        assert(self@.codes =~= old(self)@.codes.remove(p));
    }

    /// Copies the allocation at `p` out and releases it: its length first,
    /// then its bytes, then the release.
    pub fn fetch(&mut self, p: u64) -> (r: Vec<u8>)
        ensures
            r@ == if old(self)@.blocks.dom().contains(p) {
                old(self)@.blocks[p]
            } else {
                Seq::empty()
            },
            final(self)@ == old(self)@.without(p),
    {
        let n = self.length(p);
        let r = self.load_u8(p, 0, n);
        self.free(p);
        assert(r@ =~= if old(self)@.blocks.dom().contains(p) {
            old(self)@.blocks[p]
        } else {
            Seq::empty()
        });
        r
    }

    /// The length of the allocation at `p`; 0 where `p` is not live.
    pub fn length(&self, p: u64) -> (n: u64)
        ensures
            n == if self@.blocks.dom().contains(p) {
                self@.blocks[p].len()
            } else {
                0
            },
    {
        if 1 <= p && p <= self.cells.len() as u64 {
            match &self.cells[(p - 1) as usize] {
                Some(b) => b.bytes.len() as u64,
                None => 0,
            }
        } else {
            0
        }
    }

    /// Writes `data` into the allocation at `p` from `offset` on. A write
    /// that does not lie within a live allocation changes nothing.
    pub fn store_u8(&mut self, p: u64, offset: u64, data: &[u8])
        ensures
            final(self)@ == old(self)@.stored(p, offset, data@),
    {
        if 1 <= p && p <= self.cells.len() as u64 {
            let idx: usize = (p - 1) as usize;
            let mut fresh: Option<Block> = None;
            match &self.cells[idx] {
                Some(b) => {
                    if offset <= b.bytes.len() as u64 && data.len() as u64 <= b.bytes.len() as u64
                        - offset {
                        let bytes = write_window(b.bytes.as_slice(), offset as usize, data);
                        fresh = Some(Block { bytes, status: b.status });
                    }
                },
                None => {},
            }
            if fresh.is_some() {
                self.cells.set(idx, fresh);
                assert(self@.blocks =~= old(self)@.blocks.insert(
                    p,
                    overwrite(old(self)@.blocks[p], offset as int, data@),
                ));
                assert(self@.codes =~= old(self)@.codes);
            }
        }
    }

    /// Copies `len` bytes of the allocation at `p` from `offset` on; zeros
    /// where that range does not lie within a live allocation.
    pub fn load_u8(&self, p: u64, offset: u64, len: u64) -> (r: Vec<u8>)
        ensures
            r@ == if self@.blocks.dom().contains(p) {
                window(self@.blocks[p], offset, len)
            } else {
                zeros(len as nat)
            },
    {
        if 1 <= p && p <= self.cells.len() as u64 {
            match &self.cells[(p - 1) as usize] {
                Some(b) => read_window(b.bytes.as_slice(), offset, len),
                None => zero_bytes(len),
            }
        } else {
            zero_bytes(len)
        }
    }

    /// Copies the configuration value under `key` into a fresh allocation and
    /// returns its address; null where the key is unset.
    pub fn config_get(&mut self, key: &[u8]) -> (p: u64)
        ensures
            !old(self)@.config.dom().contains(key@) ==> p == 0 && final(self)@ == old(self)@,
            old(self)@.config.dom().contains(key@) ==> old(self)@.unused(p) && final(self)@ == (HostView {
                blocks: old(self)@.blocks.insert(p, old(self)@.config[key@]),
                codes: old(self)@.codes.insert(p, 0),
                ..old(self)@
            }),
    {
        match find(&self.config, key) {
            Some(i) => {
                let bytes = slice_to_vec(self.config[i].1.as_slice());
                self.place(bytes, 0)
            },
            None => 0,
        }
    }

    /// Copies the variable `name` into a fresh allocation and returns its
    /// address; null where the variable is unset.
    pub fn var_load(&mut self, name: &[u8]) -> (p: u64)
        ensures
            !old(self)@.vars.dom().contains(name@) ==> p == 0 && final(self)@ == old(self)@,
            old(self)@.vars.dom().contains(name@) ==> old(self)@.unused(p) && final(self)@ == (HostView {
                blocks: old(self)@.blocks.insert(p, old(self)@.vars[name@]),
                codes: old(self)@.codes.insert(p, 0),
                ..old(self)@
            }),
    {
        match find(&self.vars, name) {
            Some(i) => {
                let bytes = slice_to_vec(self.vars[i].1.as_slice());
                self.place(bytes, 0)
            },
            None => 0,
        }
    }

    /// Stores `value` as the variable `name`.
    pub fn var_store(&mut self, name: &[u8], value: &[u8])
        ensures
            final(self)@ == (HostView {
                vars: old(self)@.vars.insert(name@, value@),
                ..old(self)@
            }),
    {
        put(&mut self.vars, name, value);
    }

    /// Appends `message` to the log at `level`.
    pub fn log_at(&mut self, level: LogLevel, message: &[u8])
        ensures
            final(self)@ == (HostView {
                logs: old(self)@.logs.push((level, message@)),
                ..old(self)@
            }),
    {
        self.logs.push((level, slice_to_vec(message)));
        assert(self@.logs =~= old(self)@.logs.push((level, message@)));
    }

    /// Performs the request that the variable store describes. Where the
    /// transport holds no answer, the status is nonzero and nothing changes.
    /// Otherwise the status is 0, the answer's headers and body are stored as
    /// variables, and the second result is the fresh address of the response,
    /// which carries the answer's status code.
    pub fn http_send(&mut self) -> (r: (i32, u64))
        ensures
            match old(self)@.reply {
                None => r.0 != 0 && final(self)@ == old(self)@,
                Some(reply) => r.0 == 0 && old(self)@.unused(r.1) && final(self)@ == (HostView {
                    vars: reply_vars(old(self)@.vars, reply),
                    blocks: old(self)@.blocks.insert(r.1, Seq::empty()),
                    codes: old(self)@.codes.insert(r.1, reply.status),
                    ..old(self)@
                }),
            },
    {
        let mut status: i32 = 0;
        match &self.reply {
            None => {
                return (1, 0);
            },
            Some(reply) => {
                put_headers(&mut self.vars, "response:header:".as_bytes(), &reply.headers);
                match &reply.body {
                    Some(b) => {
                        put(&mut self.vars, "response:body".as_bytes(), b.as_slice());
                    },
                    None => {},
                }
                status = reply.status;
            },
        }
        let p = self.place(Vec::new(), status);
        (0, p)
    }

    /// The status code that the allocation at `p` carries; 0 where `p` is not
    /// live.
    pub fn http_status_code(&self, p: u64) -> (code: i32)
        ensures
            code == if self@.codes.dom().contains(p) {
                self@.codes[p]
            } else {
                0
            },
    {
        if 1 <= p && p <= self.cells.len() as u64 {
            match &self.cells[(p - 1) as usize] {
                Some(b) => b.status,
                None => 0,
            }
        } else {
            0
        }
    }
}

} // verus!
