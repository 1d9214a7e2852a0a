use vstd::prelude::*;
use vstd::string::StringSliceAdditionalSpecFns;

use crate::status::{HttpRequestId, HttpRequestStatus};
use crate::time::Timestamp;

verus! {

/// The bytes of each name and value in a list of header pairs.
pub open spec fn header_bytes(headers: Seq<(Vec<u8>, Vec<u8>)>) -> Seq<(Seq<u8>, Seq<u8>)> {
    headers.map_values(|p: (Vec<u8>, Vec<u8>)| (p.0@, p.1@))
}

/// The bytes of each payload in a list.
pub open spec fn payload_bytes(payloads: Seq<Vec<u8>>) -> Seq<Seq<u8>> {
    payloads.map_values(|p: Vec<u8>| p@)
}

/// The capability set through which an offchain worker reaches its host:
/// submitting results, reading the clock and driving HTTP requests.
///
/// Each operation is described by a relation of the implementing host, named
/// after it with `_post`, between the state before the call, the arguments,
/// the result and the state after. A host narrows the relation as far as its
/// behaviour is known. Facts that hold of every host stand in the operations'
/// own `ensures`.
pub trait Externalities: Sized {
    /// Outcomes `submit_extrinsic` may have.
    spec fn submit_extrinsic_post(&self, extrinsic: Seq<u8>, r: Result<(), ()>, post: Self) -> bool;

    /// Outcomes `timestamp` may have.
    spec fn timestamp_post(&self, r: Result<u64, ()>, post: Self) -> bool;

    /// Outcomes `http_request_start` may have.
    spec fn http_request_start_post(
        &self,
        method: Seq<char>,
        uri: Seq<char>,
        meta: Seq<u8>,
        r: Result<HttpRequestId, ()>,
        post: Self,
    ) -> bool;

    /// Outcomes `http_request_add_header` may have, over the bytes of the
    /// header's name and value.
    spec fn http_request_add_header_post(
        &self,
        request_id: HttpRequestId,
        name: Seq<u8>,
        value: Seq<u8>,
        r: Result<(), ()>,
        post: Self,
    ) -> bool;

    /// Outcomes `http_request_write_body` may have.
    spec fn http_request_write_body_post(
        &self,
        request_id: HttpRequestId,
        chunk: Seq<u8>,
        deadline: Option<Timestamp>,
        r: Result<(), ()>,
        post: Self,
    ) -> bool;

    /// Outcomes `http_response_wait` may have.
    spec fn http_response_wait_post(
        &self,
        ids: Seq<HttpRequestId>,
        deadline: Option<Timestamp>,
        r: Seq<HttpRequestStatus>,
        post: Self,
    ) -> bool;

    /// Outcomes `http_response_headers` may have.
    spec fn http_response_headers_post(
        &self,
        request_id: HttpRequestId,
        r: Seq<(Seq<u8>, Seq<u8>)>,
        post: Self,
    ) -> bool;

    /// Outcomes `http_response_read_body` may have; `buffer` and
    /// `buffer_after` are the caller's buffer before and after the call.
    spec fn http_response_read_body_post(
        &self,
        request_id: HttpRequestId,
        buffer: Seq<u8>,
        deadline: Option<Timestamp>,
        r: Result<usize, ()>,
        buffer_after: Seq<u8>,
        post: Self,
    ) -> bool;

    /// Hands an encoded extrinsic to the host, which either pools it or puts
    /// it in the next produced block. Fails when the capability is not
    /// available here.
    fn submit_extrinsic(&mut self, extrinsic: Vec<u8>) -> (r: Result<(), ()>)
        ensures
            old(self).submit_extrinsic_post(extrinsic@, r, *final(self)),
    ;

    /// Returns the current UNIX time in milliseconds. Fails when the
    /// capability is not available here.
    fn timestamp(&mut self) -> (r: Result<u64, ()>)
        ensures
            old(self).timestamp_post(r, *final(self)),
    ;

    /// Starts a request with the given HTTP verb and URI, and returns its
    /// id. `meta` is reserved for further encoded parameters.
    fn http_request_start(&mut self, method: &str, uri: &str, meta: &[u8]) -> (r: Result<
        HttpRequestId,
        (),
    >)
        ensures
            old(self).http_request_start_post(method@, uri@, meta@, r, *final(self)),
    ;

    /// Appends a header to a request whose body is not finalised yet.
    fn http_request_add_header(
        &mut self,
        request_id: HttpRequestId,
        name: &str,
        value: &str,
    ) -> (r: Result<(), ()>)
        ensures
            old(self).http_request_add_header_post(
                request_id,
                name.spec_bytes(),
                value.spec_bytes(),
                r,
                *final(self),
            ),
    ;

    /// Writes a chunk of the request body; an empty chunk finalises the
    /// request. Fails when the deadline passes first or the chunk cannot be
    /// written. `None` blocks without a bound.
    fn http_request_write_body(
        &mut self,
        request_id: HttpRequestId,
        chunk: &[u8],
        deadline: Option<Timestamp>,
    ) -> (r: Result<(), ()>)
        ensures
            old(self).http_request_write_body_post(request_id, chunk@, deadline, r, *final(self)),
    ;

    /// Blocks until every request in `ids` has finished or the deadline
    /// passes, and returns one status per id, in the order of `ids`. `None`
    /// blocks without a bound.
    fn http_response_wait(&mut self, ids: &[HttpRequestId], deadline: Option<Timestamp>) -> (r: Vec<
        HttpRequestStatus,
    >)
        ensures
            r@.len() == ids@.len(),
            old(self).http_response_wait_post(ids@, deadline, r@, *final(self)),
    ;

    /// Returns the response headers of a request as name and value pairs;
    /// empty where there are none to read yet.
    fn http_response_headers(&mut self, request_id: HttpRequestId) -> (r: Vec<(Vec<u8>, Vec<u8>)>)
        ensures
            old(self).http_response_headers_post(request_id, header_bytes(r@), *final(self)),
    ;

    /// Reads the next part of a response body into `buffer` and returns how
    /// many bytes were written; zero marks the end of the body. Fails when the
    /// deadline passes first or the connection closes. `None` blocks without
    /// a bound.
    fn http_response_read_body(
        &mut self,
        request_id: HttpRequestId,
        buffer: &mut [u8],
        deadline: Option<Timestamp>,
    ) -> (r: Result<usize, ()>)
        ensures
            final(buffer)@.len() == old(buffer)@.len(),
            r matches Ok(n) ==> n <= old(buffer)@.len(),
            old(self).http_response_read_body_post(
                request_id,
                old(buffer)@,
                deadline,
                r,
                final(buffer)@,
                *final(self),
            ),
    ;
}

/// An owned host behind a box forwards every operation to the host it
/// holds, and may have exactly the outcomes that host may have.
impl<T: Externalities> Externalities for Box<T> {
    open spec fn submit_extrinsic_post(&self, extrinsic: Seq<u8>, r: Result<(), ()>, post: Self) -> bool {
        (**self).submit_extrinsic_post(extrinsic, r, *post)
    }

    open spec fn timestamp_post(&self, r: Result<u64, ()>, post: Self) -> bool {
        (**self).timestamp_post(r, *post)
    }

    open spec fn http_request_start_post(
        &self,
        method: Seq<char>,
        uri: Seq<char>,
        meta: Seq<u8>,
        r: Result<HttpRequestId, ()>,
        post: Self,
    ) -> bool {
        (**self).http_request_start_post(method, uri, meta, r, *post)
    }

    open spec fn http_request_add_header_post(
        &self,
        request_id: HttpRequestId,
        name: Seq<u8>,
        value: Seq<u8>,
        r: Result<(), ()>,
        post: Self,
    ) -> bool {
        (**self).http_request_add_header_post(request_id, name, value, r, *post)
    }

    open spec fn http_request_write_body_post(
        &self,
        request_id: HttpRequestId,
        chunk: Seq<u8>,
        deadline: Option<Timestamp>,
        r: Result<(), ()>,
        post: Self,
    ) -> bool {
        (**self).http_request_write_body_post(request_id, chunk, deadline, r, *post)
    }

    open spec fn http_response_wait_post(
        &self,
        ids: Seq<HttpRequestId>,
        deadline: Option<Timestamp>,
        r: Seq<HttpRequestStatus>,
        post: Self,
    ) -> bool {
        (**self).http_response_wait_post(ids, deadline, r, *post)
    }

    open spec fn http_response_headers_post(
        &self,
        request_id: HttpRequestId,
        r: Seq<(Seq<u8>, Seq<u8>)>,
        post: Self,
    ) -> bool {
        (**self).http_response_headers_post(request_id, r, *post)
    }

    open spec fn http_response_read_body_post(
        &self,
        request_id: HttpRequestId,
        buffer: Seq<u8>,
        deadline: Option<Timestamp>,
        r: Result<usize, ()>,
        buffer_after: Seq<u8>,
        post: Self,
    ) -> bool {
        (**self).http_response_read_body_post(request_id, buffer, deadline, r, buffer_after, *post)
    }

    fn submit_extrinsic(&mut self, ex: Vec<u8>) -> (r: Result<(), ()>) {
        (**self).submit_extrinsic(ex)
    }

    fn timestamp(&mut self) -> (r: Result<u64, ()>) {
        (**self).timestamp()
    }

    fn http_request_start(&mut self, method: &str, uri: &str, meta: &[u8]) -> (r: Result<
        HttpRequestId,
        (),
    >) {
        (**self).http_request_start(method, uri, meta)
    }

    fn http_request_add_header(
        &mut self,
        request_id: HttpRequestId,
        name: &str,
        value: &str,
    ) -> (r: Result<(), ()>) {
        (**self).http_request_add_header(request_id, name, value)
    }

    fn http_request_write_body(
        &mut self,
        request_id: HttpRequestId,
        chunk: &[u8],
        deadline: Option<Timestamp>,
    ) -> (r: Result<(), ()>) {
        (**self).http_request_write_body(request_id, chunk, deadline)
    }

    fn http_response_wait(&mut self, ids: &[HttpRequestId], deadline: Option<Timestamp>) -> (r: Vec<
        HttpRequestStatus,
    >) {
        (**self).http_response_wait(ids, deadline)
    }

    fn http_response_headers(&mut self, request_id: HttpRequestId) -> (r: Vec<(Vec<u8>, Vec<u8>)>) {
        (**self).http_response_headers(request_id)
    }

    fn http_response_read_body(
        &mut self,
        request_id: HttpRequestId,
        buffer: &mut [u8],
        deadline: Option<Timestamp>,
    ) -> (r: Result<usize, ()>) {
        (**self).http_response_read_body(request_id, buffer, deadline)
    }
}

/// An operation through a boxed host may have exactly the outcomes, results
/// and states alike, that the same operation on the host inside may have.
pub proof fn lemma_proxy_forwards<T: Externalities>(b: Box<T>, post: Box<T>)
    ensures
        forall|x: Seq<u8>, r: Result<(), ()>|
            #[trigger] b.submit_extrinsic_post(x, r, post) <==> (*b).submit_extrinsic_post(x, r, *post),
        forall|r: Result<u64, ()>|
            #[trigger] b.timestamp_post(r, post) <==> (*b).timestamp_post(r, *post),
        forall|method: Seq<char>, uri: Seq<char>, meta: Seq<u8>, r: Result<HttpRequestId, ()>|
            #[trigger] b.http_request_start_post(method, uri, meta, r, post)
                <==> (*b).http_request_start_post(method, uri, meta, r, *post),
        forall|id: HttpRequestId, name: Seq<u8>, value: Seq<u8>, r: Result<(), ()>|
            #[trigger] b.http_request_add_header_post(id, name, value, r, post)
                <==> (*b).http_request_add_header_post(id, name, value, r, *post),
        forall|id: HttpRequestId, chunk: Seq<u8>, d: Option<Timestamp>, r: Result<(), ()>|
            #[trigger] b.http_request_write_body_post(id, chunk, d, r, post)
                <==> (*b).http_request_write_body_post(id, chunk, d, r, *post),
        forall|ids: Seq<HttpRequestId>, d: Option<Timestamp>, r: Seq<HttpRequestStatus>|
            #[trigger] b.http_response_wait_post(ids, d, r, post)
                <==> (*b).http_response_wait_post(ids, d, r, *post),
        forall|id: HttpRequestId, r: Seq<(Seq<u8>, Seq<u8>)>|
            #[trigger] b.http_response_headers_post(id, r, post)
                <==> (*b).http_response_headers_post(id, r, *post),
        forall|id: HttpRequestId, buf: Seq<u8>, d: Option<Timestamp>, r: Result<usize, ()>, after: Seq<u8>|
            #[trigger] b.http_response_read_body_post(id, buf, d, r, after, post)
                <==> (*b).http_response_read_body_post(id, buf, d, r, after, *post),
{
}

} // verus!
