//! One outbound request, proxied through the runtime, and its response.

use vstd::prelude::*;
use vstd::utf8::encode_utf8;
use crate::host::{is_null, join_bytes, put_headers, Host};
use crate::method::HttpMethod;
use crate::model::{
    opt_bytes, pairs_view, reply_vars, with_headers, with_optional, HostView,
};
use crate::surface::{found_text, text_at};

verus! {

/// A request: built by the plugin, consumed by the call that sends it.
pub struct HttpRequest {
    pub method: HttpMethod,
    pub url: String,
    pub headers: Vec<(String, String)>,
    pub body: Option<Vec<u8>>,
}

/// The handle on a completed request.
pub struct HttpResponse {
    ptr: u64,
}

/// The variable store `base` after `request` was written into it: method and
/// URL, then each header under `request:header:` and its name, then the body
/// where there is one.
pub open spec fn request_vars(base: Map<Seq<u8>, Seq<u8>>, request: HttpRequest) -> Map<
    Seq<u8>,
    Seq<u8>,
> {
    with_optional(
        with_headers(
            base.insert(encode_utf8("request:method"@), encode_utf8(request.method.name())).insert(
                encode_utf8("request:url"@),
                encode_utf8(request.url@),
            ),
            encode_utf8("request:header:"@),
            pairs_view(request.headers@),
        ),
        encode_utf8("request:body"@),
        opt_bytes(request.body),
    )
}

/// The variable under which the runtime stores the response header `name`.
pub fn header_key(name: &str) -> (key: Vec<u8>)
    ensures
        key@ == encode_utf8("response:header:"@) + encode_utf8(name@),
{
    join_bytes("response:header:".as_bytes(), name.as_bytes())
}

impl HttpResponse {
    /// The address of the response in the runtime.
    pub closed spec fn handle(&self) -> u64 {
        self.ptr
    }

    /// The address of the response in the runtime.
    pub fn ptr(&self) -> (p: u64)
        ensures
            p == self.handle(),
    {
        self.ptr
    }

    /// What the runtime's answer to a request comes to: with a nonzero
    /// status an error, and no handle is made; with status 0 the handle on
    /// the response at `ptr`.
    pub fn from_status(status: i32, ptr: u64) -> (r: Result<HttpResponse, String>)
        ensures
            status != 0 ==> (r matches Err(m) && m@ == "HTTP request failed"@),
            status == 0 ==> (r matches Ok(response) && response.handle() == ptr),
    {
        if status != 0 {
            return Err("HTTP request failed".to_owned());
        }
        Ok(HttpResponse { ptr })
    }

    /// The status code of the response; 0 where the handle is not live.
    pub fn status(&self, host: &Host) -> (code: i32)
        ensures
            code == if host@.codes.dom().contains(self.handle()) {
                host@.codes[self.handle()]
            } else {
                0
            },
    {
        host.http_status_code(self.ptr)
    }

    /// The body of the latest response; empty where it has none. The runtime
    /// is left as it was.
    pub fn body(&self, host: &mut Host) -> (r: Vec<u8>)
        ensures
            final(host)@ == old(host)@,
            r@ == if old(host)@.vars.dom().contains(encode_utf8("response:body"@)) {
                old(host)@.vars[encode_utf8("response:body"@)]
            } else {
                Seq::empty()
            },
    {
        let p = host.var_load("response:body".as_bytes());
        if is_null(p) {
            return Vec::new();
        }
        let data = host.fetch(p);
        proof {
            assert(host@.blocks =~= old(host)@.blocks);
            assert(host@.codes =~= old(host)@.codes);
        }
        data
    }

    /// The header `name` of the latest response, as text: nothing where the
    /// response has no such header or its value is not UTF-8. The runtime is
    /// left as it was.
    pub fn header(&self, host: &mut Host, name: &str) -> (r: Option<String>)
        ensures
            final(host)@ == old(host)@,
            match r {
                Some(s) => text_at(
                    old(host)@.vars,
                    encode_utf8("response:header:"@) + encode_utf8(name@),
                ) == Some(s@),
                None => text_at(
                    old(host)@.vars,
                    encode_utf8("response:header:"@) + encode_utf8(name@),
                ) is None,
            },
    {
        let key = header_key(name);
        let p = host.var_load(key.as_slice());
        if is_null(p) {
            return found_text(None);
        }
        let data = host.fetch(p);
        proof {
            assert(host@.blocks =~= old(host)@.blocks);
            assert(host@.codes =~= old(host)@.codes);
        }
        found_text(Some(data))
    }

    /// Releases the response; the handle is gone after the call.
    pub fn free(self, host: &mut Host)
        ensures
            final(host)@ == old(host)@.without(self.handle()),
    {
        host.free(self.ptr);
    }
}

impl Host {
    /// Writes `request` into the variable store under the reserved keys:
    /// method and URL, each header, and the body where there is one.
    pub fn write_request(&mut self, request: &HttpRequest)
        ensures
            final(self)@ == (HostView {
                vars: request_vars(old(self)@.vars, *request),
                ..old(self)@
            }),
    {
        let method = request.method.to_string();
        self.var_set_string("request:method", method.as_str());
        self.var_set_string("request:url", request.url.as_str());
        put_headers(&mut self.vars, "request:header:".as_bytes(), &request.headers);
        match &request.body {
            Some(body) => {
                self.var_set("request:body", body.as_slice());
            },
            None => {},
        }
    }

    /// Sends `request` through the runtime: writes it into the variable store
    /// under the reserved keys, then asks the runtime to perform it. Where
    /// the runtime reports a failure, the result is an error and no response
    /// exists; otherwise the result is the handle on the response, whose
    /// headers and body the runtime has stored as variables.
    pub fn http_request(&mut self, request: &HttpRequest) -> (r: Result<HttpResponse, String>)
        ensures
            match old(self)@.reply {
                None => r matches Err(m) && m@ == "HTTP request failed"@ && final(self)@ == (
                HostView { vars: request_vars(old(self)@.vars, *request), ..old(self)@ }),
                Some(reply) => r matches Ok(response) && old(self)@.unused(response.handle())
                    && final(self)@ == (HostView {
                    vars: reply_vars(request_vars(old(self)@.vars, *request), reply),
                    blocks: old(self)@.blocks.insert(response.handle(), Seq::empty()),
                    codes: old(self)@.codes.insert(response.handle(), reply.status),
                    ..old(self)@
                }),
            },
    {
        self.write_request(request);
        let (status, ptr) = self.http_send();
        HttpResponse::from_status(status, ptr)
    }
}

} // verus!
