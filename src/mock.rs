use vstd::prelude::*;
use vstd::string::StringSliceAdditionalSpecFns;
use vstd::slice::slice_to_vec;

use crate::externalities::{header_bytes, payload_bytes, Externalities};
use crate::status::{is_response_code, HttpRequestId, HttpRequestStatus};
use crate::time::{sat_add, Duration, Timestamp};

verus! {

/// The most requests a host can hand out ids for: one per `u16` value.
pub const MAX_REQUESTS: usize = 65536;

/// What the in-memory host knows of one request.
pub struct RequestModel {
    pub method: Seq<char>,
    pub uri: Seq<char>,
    pub meta: Seq<u8>,
    pub headers: Seq<(Seq<u8>, Seq<u8>)>,
    pub body: Seq<u8>,
    pub finalized: bool,
    pub read_pos: nat,
}

/// The state of the in-memory host.
pub struct HostModel {
    pub now: u64,
    pub available: bool,
    pub response_code: u16,
    pub submitted: Seq<Seq<u8>>,
    pub requests: Seq<RequestModel>,
}

/// A request as it stands right after it is started.
pub open spec fn fresh_request(method: Seq<char>, uri: Seq<char>, meta: Seq<u8>) -> RequestModel {
    RequestModel {
        method,
        uri,
        meta,
        headers: Seq::empty(),
        body: Seq::empty(),
        finalized: false,
        read_pos: 0,
    }
}

/// Whether the host has a record of `id`.
pub open spec fn is_known(m: HostModel, id: HttpRequestId) -> bool {
    (id.0 as int) < m.requests.len()
}

/// Whether the request `id` still takes headers and body chunks.
pub open spec fn is_open(m: HostModel, id: HttpRequestId) -> bool {
    is_known(m, id) && !m.requests[id.0 as int].finalized
}

/// Whether the response to `id` can be read.
pub open spec fn is_ready(m: HostModel, id: HttpRequestId) -> bool {
    is_known(m, id) && m.requests[id.0 as int].finalized
}

/// Whether `deadline` lies before the host's current time.
pub open spec fn deadline_passed(m: HostModel, deadline: Option<Timestamp>) -> bool {
    match deadline {
        Some(t) => t@ < m.now,
        None => false,
    }
}

/// Result and next state of `submit_extrinsic`.
pub open spec fn submit_outcome(m: HostModel, extrinsic: Seq<u8>) -> (Result<(), ()>, HostModel) {
    if m.available {
        (Ok(()), HostModel { submitted: m.submitted.push(extrinsic), ..m })
    } else {
        (Err(()), m)
    }
}

/// Result of `timestamp`; the state does not change.
pub open spec fn timestamp_outcome(m: HostModel) -> Result<u64, ()> {
    if m.available {
        Ok(m.now)
    } else {
        Err(())
    }
}

/// Result and next state of `http_request_start`: the id is the request's
/// position among all requests started so far.
pub open spec fn start_outcome(m: HostModel, method: Seq<char>, uri: Seq<char>, meta: Seq<u8>) -> (
    Result<HttpRequestId, ()>,
    HostModel,
) {
    if m.requests.len() < MAX_REQUESTS {
        (
            Ok(HttpRequestId(m.requests.len() as u16)),
            HostModel { requests: m.requests.push(fresh_request(method, uri, meta)), ..m },
        )
    } else {
        (Err(()), m)
    }
}

/// `m` with the record of request `id` replaced by `r`.
pub open spec fn with_request(m: HostModel, id: HttpRequestId, r: RequestModel) -> HostModel {
    HostModel { requests: m.requests.update(id.0 as int, r), ..m }
}

/// Result and next state of `http_request_add_header`: only a request that
/// is still open takes a header.
pub open spec fn add_header_outcome(m: HostModel, id: HttpRequestId, name: Seq<u8>, value: Seq<u8>) -> (
    Result<(), ()>,
    HostModel,
) {
    if is_open(m, id) {
        let req = m.requests[id.0 as int];
        (Ok(()), with_request(m, id, RequestModel { headers: req.headers.push((name, value)), ..req }))
    } else {
        (Err(()), m)
    }
}

/// Result and next state of `http_request_write_body`: an open request
/// whose deadline has not passed takes the chunk, and an empty chunk
/// finalises it. A failed write changes nothing.
pub open spec fn write_body_outcome(
    m: HostModel,
    id: HttpRequestId,
    chunk: Seq<u8>,
    deadline: Option<Timestamp>,
) -> (Result<(), ()>, HostModel) {
    if !is_open(m, id) || deadline_passed(m, deadline) {
        (Err(()), m)
    } else {
        let req = m.requests[id.0 as int];
        if chunk.len() == 0 {
            (Ok(()), with_request(m, id, RequestModel { finalized: true, ..req }))
        } else {
            (Ok(()), with_request(m, id, RequestModel { body: req.body + chunk, ..req }))
        }
    }
}

/// The status the host reports for `id`. A finalised request has its
/// response at once. The host makes no progress on a request that was never
/// finalised: a wait with a deadline ends at it, and one without ends in the
/// host's own timeout.
pub open spec fn status_of(m: HostModel, id: HttpRequestId, deadline: Option<Timestamp>) -> HttpRequestStatus {
    if !is_known(m, id) {
        HttpRequestStatus::Unknown
    } else if m.requests[id.0 as int].finalized {
        HttpRequestStatus::Finished(m.response_code)
    } else if deadline.is_some() {
        HttpRequestStatus::DeadlineReached
    } else {
        HttpRequestStatus::Timeout
    }
}

/// Result of `http_response_wait`, one status per id in the order given;
/// the state does not change.
pub open spec fn wait_outcome(m: HostModel, ids: Seq<HttpRequestId>, deadline: Option<Timestamp>) -> Seq<
    HttpRequestStatus,
> {
    Seq::new(ids.len(), |i: int| status_of(m, ids[i], deadline))
}

/// Result of `http_response_headers`: the echoed request headers once the
/// response is ready, else none. The state does not change.
pub open spec fn headers_outcome(m: HostModel, id: HttpRequestId) -> Seq<(Seq<u8>, Seq<u8>)> {
    if is_ready(m, id) {
        m.requests[id.0 as int].headers
    } else {
        Seq::empty()
    }
}

/// How many body bytes of a request are still to be read.
pub open spec fn unread(req: RequestModel) -> nat {
    if req.read_pos <= req.body.len() {
        (req.body.len() - req.read_pos) as nat
    } else {
        0
    }
}

/// How many bytes a read into a buffer of `len` bytes takes.
pub open spec fn read_len(req: RequestModel, len: nat) -> nat {
    if len < unread(req) {
        len
    } else {
        unread(req)
    }
}

/// Result, buffer afterwards and next state of `http_response_read_body`:
/// the next unread bytes of the echoed body fill the front of the buffer,
/// as many as fit, and the rest of the buffer stays as it was.
pub open spec fn read_body_outcome(
    m: HostModel,
    id: HttpRequestId,
    buffer: Seq<u8>,
    deadline: Option<Timestamp>,
) -> (Result<usize, ()>, Seq<u8>, HostModel) {
    if !is_ready(m, id) || deadline_passed(m, deadline) {
        (Err(()), buffer, m)
    } else {
        let req = m.requests[id.0 as int];
        let n = read_len(req, buffer.len());
        (
            Ok(n as usize),
            Seq::new(n, |k: int| req.body[req.read_pos + k]) + buffer.subrange(n as int, buffer.len() as int),
            with_request(m, id, RequestModel { read_pos: req.read_pos + n, ..req }),
        )
    }
}

/// One request's record in an exchange with the in-memory host.
pub struct MockRequest {
    method: String,
    uri: String,
    meta: Vec<u8>,
    headers: Vec<(Vec<u8>, Vec<u8>)>,
    body: Vec<u8>,
    finalized: bool,
    read_pos: usize,
}

impl View for MockRequest {
    type V = RequestModel;

    closed spec fn view(&self) -> RequestModel {
        RequestModel {
            method: self.method@,
            uri: self.uri@,
            meta: self.meta@,
            headers: header_bytes(self.headers@),
            body: self.body@,
            finalized: self.finalized,
            read_pos: self.read_pos as nat,
        }
    }
}

/// An in-memory host that answers every finalised request at once, echoing
/// the request's headers and body back with a fixed response status code.
/// Its clock moves only when told to.
pub struct MockHost {
    now: u64,
    available: bool,
    response_code: u16,
    submitted: Vec<Vec<u8>>,
    requests: Vec<MockRequest>,
}

impl View for MockHost {
    type V = HostModel;

    closed spec fn view(&self) -> HostModel {
        HostModel {
            now: self.now,
            available: self.available,
            response_code: self.response_code,
            submitted: payload_bytes(self.submitted@),
            requests: self.requests@.map_values(|r: MockRequest| r@),
        }
    }
}

impl MockHost {
    /// Creates a host whose clock reads `now`, with no requests, answering
    /// every request with `response_code`.
    pub fn new(now: Timestamp, response_code: u16) -> (h: MockHost)
        requires
            is_response_code(response_code),
        ensures
            h@ == (HostModel {
                now: now@ as u64,
                available: true,
                response_code,
                submitted: Seq::empty(),
                requests: Seq::empty(),
            }),
    {
        let h = MockHost {
            now: now.unix_millis(),
            available: true,
            response_code,
            submitted: Vec::new(),
            requests: Vec::new(),
        };
        assert(h@.submitted =~= Seq::empty());
        assert(h@.requests =~= Seq::empty());
        h
    }
}

impl MockHost {
    /// The status reported for `id`.
    fn status_of(&self, id: HttpRequestId, deadline: Option<Timestamp>) -> (r: HttpRequestStatus)
        ensures
            r == status_of(self@, id, deadline),
    {
        let i = id.0 as usize;
        if i >= self.requests.len() {
            HttpRequestStatus::Unknown
        } else if self.requests[i].finalized {
            HttpRequestStatus::Finished(self.response_code)
        } else if deadline.is_some() {
            HttpRequestStatus::DeadlineReached
        } else {
            HttpRequestStatus::Timeout
        }
    }

    /// Whether `deadline` lies before the host's current time.
    fn deadline_passed(&self, deadline: Option<Timestamp>) -> (r: bool)
        ensures
            r == deadline_passed(self@, deadline),
    {
        match deadline {
            Some(t) => t.unix_millis() < self.now,
            None => false,
        }
    }
}

impl MockHost {
    /// Moves the host's clock later by `d`, stopping at the largest
    /// representable time.
    pub fn advance(&mut self, d: Duration)
        ensures
            final(self)@ == (HostModel { now: sat_add(old(self)@.now as nat, d@) as u64, ..old(self)@ }),
    {
        self.now = Timestamp::from_unix_millis(self.now).add(d).unix_millis();
    }

    /// Makes submitting and reading the clock possible or not.
    pub fn set_available(&mut self, available: bool)
        ensures
            final(self)@ == (HostModel { available, ..old(self)@ }),
    {
        self.available = available;
    }

    /// Returns the host's current time.
    pub fn now(&self) -> (t: Timestamp)
        ensures
            t@ == self@.now,
    {
        Timestamp::from_unix_millis(self.now)
    }

    /// Returns how many extrinsics were submitted so far.
    pub fn submitted_count(&self) -> (n: usize)
        ensures
            n == self@.submitted.len(),
    {
        self.submitted.len()
    }
}

impl Externalities for MockHost {
    open spec fn submit_extrinsic_post(&self, extrinsic: Seq<u8>, r: Result<(), ()>, post: Self) -> bool {
        (r, post@) == submit_outcome(self@, extrinsic)
    }

    open spec fn timestamp_post(&self, r: Result<u64, ()>, post: Self) -> bool {
        r == timestamp_outcome(self@) && post@ == self@
    }

    open spec fn http_request_start_post(
        &self,
        method: Seq<char>,
        uri: Seq<char>,
        meta: Seq<u8>,
        r: Result<HttpRequestId, ()>,
        post: Self,
    ) -> bool {
        (r, post@) == start_outcome(self@, method, uri, meta)
    }

    open spec fn http_request_add_header_post(
        &self,
        request_id: HttpRequestId,
        name: Seq<u8>,
        value: Seq<u8>,
        r: Result<(), ()>,
        post: Self,
    ) -> bool {
        (r, post@) == add_header_outcome(self@, request_id, name, value)
    }

    open spec fn http_request_write_body_post(
        &self,
        request_id: HttpRequestId,
        chunk: Seq<u8>,
        deadline: Option<Timestamp>,
        r: Result<(), ()>,
        post: Self,
    ) -> bool {
        (r, post@) == write_body_outcome(self@, request_id, chunk, deadline)
    }

    open spec fn http_response_wait_post(
        &self,
        ids: Seq<HttpRequestId>,
        deadline: Option<Timestamp>,
        r: Seq<HttpRequestStatus>,
        post: Self,
    ) -> bool {
        r == wait_outcome(self@, ids, deadline) && post@ == self@
    }

    open spec fn http_response_headers_post(
        &self,
        request_id: HttpRequestId,
        r: Seq<(Seq<u8>, Seq<u8>)>,
        post: Self,
    ) -> bool {
        r == headers_outcome(self@, request_id) && post@ == self@
    }

    open spec fn http_response_read_body_post(
        &self,
        request_id: HttpRequestId,
        buffer: Seq<u8>,
        deadline: Option<Timestamp>,
        r: Result<usize, ()>,
        buffer_after: Seq<u8>,
        post: Self,
    ) -> bool {
        (r, buffer_after, post@) == read_body_outcome(self@, request_id, buffer, deadline)
    }

    fn submit_extrinsic(&mut self, extrinsic: Vec<u8>) -> (r: Result<(), ()>) {
        if self.available {
            let ghost before = self.submitted@;
            self.submitted.push(extrinsic);
            assert(payload_bytes(self.submitted@) =~= payload_bytes(before).push(extrinsic@));
            Ok(())
        } else {
            Err(())
        }
    }

    fn timestamp(&mut self) -> (r: Result<u64, ()>) {
        if self.available {
            Ok(self.now)
        } else {
            Err(())
        }
    }

    fn http_request_start(&mut self, method: &str, uri: &str, meta: &[u8]) -> (r: Result<
        HttpRequestId,
        (),
    >) {
        if self.requests.len() < MAX_REQUESTS {
            let id = HttpRequestId(self.requests.len() as u16);
            let req = MockRequest {
                method: method.to_owned(),
                uri: uri.to_owned(),
                meta: slice_to_vec(meta),
                headers: Vec::new(),
                body: Vec::new(),
                finalized: false,
                read_pos: 0,
            };
            assert(req@ =~= fresh_request(method@, uri@, meta@)) by {
                assert(header_bytes(req.headers@) =~= Seq::empty());
            }
            let ghost before = self.requests@;
            self.requests.push(req);
            assert(self.requests@.map_values(|r: MockRequest| r@) =~= before.map_values(
                |r: MockRequest| r@,
            ).push(fresh_request(method@, uri@, meta@)));
            Ok(id)
        } else {
            Err(())
        }
    }

    fn http_request_add_header(
        &mut self,
        request_id: HttpRequestId,
        name: &str,
        value: &str,
    ) -> (r: Result<(), ()>) {
        let i = request_id.0 as usize;
        if i < self.requests.len() && !self.requests[i].finalized {
            let name_bytes = slice_to_vec(name.as_bytes());
            let value_bytes = slice_to_vec(value.as_bytes());
            let ghost before = self.requests@;
            let req = &mut self.requests[i];
            req.headers.push((name_bytes, value_bytes));
            proof {
                let old_req = before[i as int];
                let new_req = self.requests@[i as int];
                assert(header_bytes(new_req.headers@) =~= header_bytes(old_req.headers@).push(
                    (name.spec_bytes(), value.spec_bytes()),
                ));
                assert(self.requests@.map_values(|r: MockRequest| r@) =~= before.map_values(
                    |r: MockRequest| r@,
                ).update(i as int, new_req@));
            }
            Ok(())
        } else {
            Err(())
        }
    }

    fn http_request_write_body(
        &mut self,
        request_id: HttpRequestId,
        chunk: &[u8],
        deadline: Option<Timestamp>,
    ) -> (r: Result<(), ()>) {
        let i = request_id.0 as usize;
        if i >= self.requests.len() || self.requests[i].finalized || self.deadline_passed(deadline) {
            return Err(());
        }
        let ghost before = self.requests@;
        let req = &mut self.requests[i];
        if chunk.len() == 0 {
            req.finalized = true;
        } else {
            req.body.extend_from_slice(chunk);
        }
        proof {
            let old_req = before[i as int];
            let new_req = self.requests@[i as int];
            assert(new_req@.body =~= if chunk@.len() == 0 {
                old_req@.body
            } else {
                old_req@.body + chunk@
            });
            assert(self.requests@.map_values(|r: MockRequest| r@) =~= before.map_values(
                |r: MockRequest| r@,
            ).update(i as int, new_req@));
        }
        Ok(())
    }

    fn http_response_wait(&mut self, ids: &[HttpRequestId], deadline: Option<Timestamp>) -> (r: Vec<
        HttpRequestStatus,
    >) {
        let mut r: Vec<HttpRequestStatus> = Vec::new();
        let mut i: usize = 0;
        while i < ids.len()
            invariant
                i <= ids@.len(),
                r@ =~= wait_outcome(self@, ids@, deadline).subrange(0, i as int),
            decreases ids@.len() - i,
        {
            let status = self.status_of(ids[i], deadline);
            r.push(status);
            i = i + 1;
        }
        assert(r@ =~= wait_outcome(self@, ids@, deadline));
        r
    }

    fn http_response_headers(&mut self, request_id: HttpRequestId) -> (r: Vec<(Vec<u8>, Vec<u8>)>) {
        let mut r: Vec<(Vec<u8>, Vec<u8>)> = Vec::new();
        let i = request_id.0 as usize;
        if i >= self.requests.len() || !self.requests[i].finalized {
            assert(header_bytes(r@) =~= Seq::empty());
            return r;
        }
        let headers = &self.requests[i].headers;
        assert(header_bytes(headers@) == self@.requests[i as int].headers);
        let mut k: usize = 0;
        while k < headers.len()
            invariant
                k <= headers@.len(),
                header_bytes(r@) =~= header_bytes(headers@).subrange(0, k as int),
            decreases headers@.len() - k,
        {
            let name = slice_to_vec(headers[k].0.as_slice());
            let value = slice_to_vec(headers[k].1.as_slice());
            let ghost r0 = r@;
            r.push((name, value));
            assert(header_bytes(r@) =~= header_bytes(r0).push((headers@[k as int].0@, headers@[k as int].1@)));
            k = k + 1;
        }
        assert(header_bytes(r@) =~= header_bytes(headers@));
        r
    }

    fn http_response_read_body(
        &mut self,
        request_id: HttpRequestId,
        buffer: &mut [u8],
        deadline: Option<Timestamp>,
    ) -> (r: Result<usize, ()>) {
        let i = request_id.0 as usize;
        if i >= self.requests.len() || !self.requests[i].finalized || self.deadline_passed(deadline) {
            return Err(());
        }
        let ghost buf0 = buffer@;
        let ghost req0 = self@.requests[i as int];
        let pos = self.requests[i].read_pos;
        let len = self.requests[i].body.len();
        let unread = if pos <= len {
            len - pos
        } else {
            0
        };
        let n = if buffer.len() < unread {
            buffer.len()
        } else {
            unread
        };
        assert(n == read_len(req0, buf0.len()));
        let mut k: usize = 0;
        while k < n
            invariant
                k <= n,
                n <= buffer@.len(),
                n <= unread,
                i < self.requests@.len(),
                pos == self.requests@[i as int].read_pos,
                len == self.requests@[i as int].body@.len(),
                unread == if pos <= len { len - pos } else { 0 },
                buffer@.len() == buf0.len(),
                forall|j: int| 0 <= j < k ==> buffer@[j] == self.requests@[i as int].body@[pos + j],
                forall|j: int| k <= j < buffer@.len() ==> buffer@[j] == buf0[j],
            decreases n - k,
        {
            buffer[k] = self.requests[i].body[pos + k];
            k = k + 1;
        }
        let ghost before = self.requests@;
        let req = &mut self.requests[i];
        req.read_pos = pos + n;
        proof {
            let new_req = self.requests@[i as int];
            assert(buffer@ =~= Seq::new(n as nat, |j: int| req0.body[req0.read_pos + j]) + buf0.subrange(
                n as int,
                buf0.len() as int,
            ));
            assert(self.requests@.map_values(|r: MockRequest| r@) =~= before.map_values(
                |r: MockRequest| r@,
            ).update(i as int, new_req@));
        }
        Ok(n)
    }
}

/// A wait reports exactly one status per id, in the order of the ids, each
/// the status of that id; an id the host has no record of is reported
/// `Unknown`. Waiting changes nothing, so a second wait reports the same.
pub proof fn lemma_wait_one_status_per_id(m: HostModel, ids: Seq<HttpRequestId>, deadline: Option<Timestamp>)
    ensures
        wait_outcome(m, ids, deadline).len() == ids.len(),
        forall|i: int|
            0 <= i < ids.len() ==> #[trigger] wait_outcome(m, ids, deadline)[i] == status_of(m, ids[i], deadline),
        forall|i: int|
            0 <= i < ids.len() && !is_known(m, ids[i]) ==> #[trigger] wait_outcome(m, ids, deadline)[i]
                == HttpRequestStatus::Unknown,
{
}

/// Writing an empty chunk to a request finalises it: from then on its
/// response is ready, and neither a header nor a further chunk is taken.
pub proof fn lemma_empty_chunk_finalizes(
    m: HostModel,
    id: HttpRequestId,
    deadline: Option<Timestamp>,
    name: Seq<u8>,
    value: Seq<u8>,
    chunk: Seq<u8>,
    later: Option<Timestamp>,
)
    requires
        write_body_outcome(m, id, Seq::empty(), deadline).0 is Ok,
    ensures
        is_ready(write_body_outcome(m, id, Seq::empty(), deadline).1, id),
        add_header_outcome(write_body_outcome(m, id, Seq::empty(), deadline).1, id, name, value).0 is Err,
        write_body_outcome(write_body_outcome(m, id, Seq::empty(), deadline).1, id, chunk, later).0 is Err,
{
}

} // verus!
