use vstd::prelude::*;

verus! {

use crate::body::ReadPlan;
use crate::body::ResponseBodyHolder;
use crate::body::SlotView;
use crate::body::spec_read;
use crate::body::plan_view;
use crate::errors::CoreError;
use crate::header::Headers;
use crate::http::StatusCode;
use crate::http::Version;

/// A response from a request: the immutable response line, headers and
/// addresses, plus the single-owner body slot.
///
/// The body starts out streamable.  Accessors that materialize it route
/// through [`ResponseBodyHolder`], so a buffered body is reread without
/// I/O, streaming consumes it exactly once, and conflicting concurrent
/// reads surface `BorrowConflict`.
#[derive(Debug)]
pub struct Response {
    status: StatusCode,
    version: Version,
    url: String,
    content_length: Option<u64>,
    headers: Headers,
    local_addr: Option<String>,
    remote_addr: Option<String>,
    body: ResponseBodyHolder,
}

impl Response {
    /// The status code.
    pub closed spec fn spec_status(&self) -> StatusCode {
        self.status
    }

    /// The protocol version.
    pub closed spec fn spec_version(&self) -> Version {
        self.version
    }

    /// The request's final URL.
    pub closed spec fn spec_url(&self) -> Seq<char> {
        self.url@
    }

    /// The declared content length, if known.
    pub closed spec fn spec_content_length(&self) -> Option<u64> {
        self.content_length
    }

    /// The response headers.
    pub closed spec fn spec_headers(&self) -> Seq<(Seq<u8>, Seq<char>)> {
        self.headers@
    }

    /// The body slot's state.
    pub closed spec fn body_slot(&self) -> SlotView {
        self.body.slot_view()
    }

    /// The local socket address, if known.
    pub closed spec fn spec_local_addr(&self) -> Option<Seq<char>> {
        match self.local_addr {
            Some(a) => Some(a@),
            None => None,
        }
    }

    /// The remote socket address, if known.
    pub closed spec fn spec_remote_addr(&self) -> Option<Seq<char>> {
        match self.remote_addr {
            Some(a) => Some(a@),
            None => None,
        }
    }

    /// The response is well formed when its parts are.
    pub open spec fn well_formed(&self) -> bool {
        self.spec_status().well_formed()
    }

    /// Assemble a response around its not-yet-read body.
    pub fn new(
        status: StatusCode,
        version: Version,
        url: String,
        content_length: Option<u64>,
        headers: Headers,
        local_addr: Option<String>,
        remote_addr: Option<String>,
    ) -> (r: Response)
        requires
            status.well_formed(),
        ensures
            r.well_formed(),
            r.spec_status() == status,
            r.spec_version() == version,
            r.spec_url() == url@,
            r.spec_content_length() == content_length,
            r.spec_headers() == headers@,
            r.body_slot() is Streamable,
    {
        Response {
            status,
            version,
            url,
            content_length,
            headers,
            local_addr,
            remote_addr,
            body: ResponseBodyHolder::new_streaming(),
        }
    }

    /// The status code as an integer.
    pub fn code(&self) -> (r: u16)
        ensures
            r == self.spec_status().spec_code(),
    {
        self.status.as_int()
    }

    /// The status code.
    pub fn status(&self) -> (r: StatusCode)
        ensures
            r == self.spec_status(),
    {
        self.status
    }

    /// The protocol version.
    pub fn version(&self) -> (r: Version)
        ensures
            r == self.spec_version(),
    {
        self.version
    }

    /// The request's final URL.
    pub fn url(&self) -> (r: &str)
        ensures
            r@ == self.spec_url(),
    {
        self.url.as_str()
    }

    /// The declared content length, if known.
    pub fn content_length(&self) -> (r: Option<u64>)
        ensures
            r == self.spec_content_length(),
    {
        self.content_length
    }

    /// The response headers.
    pub fn headers(&self) -> (r: &Headers)
        ensures
            r@ == self.spec_headers(),
    {
        &self.headers
    }

    /// The local socket address, if known.
    pub fn local_addr(&self) -> (r: Option<&str>)
        ensures
            match r {
                Some(a) => self.spec_local_addr() == Some(a@),
                None => self.spec_local_addr() is None,
            },
    {
        match &self.local_addr {
            Some(a) => Some(a.as_str()),
            None => None,
        }
    }

    /// The remote socket address, if known.
    pub fn remote_addr(&self) -> (r: Option<&str>)
        ensures
            match r {
                Some(a) => self.spec_remote_addr() == Some(a@),
                None => self.spec_remote_addr() is None,
            },
    {
        match &self.remote_addr {
            Some(a) => Some(a.as_str()),
            None => None,
        }
    }

    /// Request the body, buffered (for `bytes`, `text` and `json`
    /// accessors) or streaming (for chunk iteration).  See
    /// [`ResponseBodyHolder::begin_read`].
    pub fn begin_read(&mut self, stream: bool) -> (r: Result<ReadPlan, CoreError>)
        ensures
            final(self).body_slot() == spec_read(old(self).body_slot(), stream).0,
            plan_view(r) == spec_read(old(self).body_slot(), stream).1,
            final(self).spec_status() == old(self).spec_status(),
            final(self).spec_headers() == old(self).spec_headers(),
    {
        self.body.begin_read(stream)
    }

    /// Complete a buffering read with the drained bytes.  See
    /// [`ResponseBodyHolder::finish_buffer`].
    pub fn finish_buffer(&mut self, data: Vec<u8>) -> (r: bytes::Bytes)
        requires
            old(self).body_slot() is CheckedOut,
        ensures
            final(self).body_slot() == SlotView::Reusable(data@),
            crate::body::byte_content(r) == data@,
            final(self).spec_status() == old(self).spec_status(),
            final(self).spec_headers() == old(self).spec_headers(),
    {
        self.body.finish_buffer(data)
    }

    /// Give up a buffering read that failed.
    pub fn abandon_read(&mut self)
        requires
            old(self).body_slot() is CheckedOut,
        ensures
            final(self).body_slot() is Empty,
            final(self).spec_status() == old(self).spec_status(),
            final(self).spec_headers() == old(self).spec_headers(),
    {
        self.body.abandon()
    }

    /// The materialized body, if one is stored.
    pub fn buffered_body(&self) -> (r: Option<Vec<u8>>)
        ensures
            match self.body_slot() {
                SlotView::Reusable(data) => r matches Some(v) && v@ == data,
                _ => r is None,
            },
    {
        self.body.buffered()
    }

    /// Drop the body, releasing any held resources.  In the embedding this
    /// runs with the interpreter lock held, since releasing the source may
    /// trigger interpreter-visible finalization.
    pub fn close(&mut self)
        ensures
            final(self).body_slot() is Empty,
            final(self).spec_status() == old(self).spec_status(),
            final(self).spec_headers() == old(self).spec_headers(),
    {
        self.body.close()
    }
}
} // verus!
