//! Request dispatch and response construction.
//!
//! A request is handled in two decisions: `route` turns the method and body
//! into the one action to take (a point read, a point write, an immediate
//! response, or giving the request up), and `get_response` / `put_response`
//! turn the store's outcome into the response. `handle_request` runs a whole
//! request against a store model and carries the full contract of the
//! service.

use crate::json::{
    error_body, parse_garage_status, render_status_json, spec_error_body, spec_parse_body,
    spec_render_status,
};
use crate::status::{
    interpret_stored, opt_str_view, spec_encode, spec_interpret, GarageDoorStatus, Status,
};
use crate::store::{build_put_record, store_contents, StoreModel};
use vstd::prelude::*;
use vstd::string::StringExecFns;

verus! {

/// The HTTP method of an inbound request, as far as the service tells
/// methods apart: the two it serves, and everything else.
#[derive(Clone, Copy, PartialEq, Eq, Structural, Debug)]
pub enum Method {
    Get,
    Post,
    Other,
}

/// An inbound request body: absent, or present as text.
#[derive(PartialEq, Eq, Debug)]
pub enum RequestBody {
    Empty,
    Present(String),
}

/// An outbound response: a status code and an optional JSON body.
#[derive(PartialEq, Eq, Debug)]
pub struct HttpResponse {
    pub status_code: u16,
    pub body: Option<String>,
}

/// The one failure the handler does not turn into a response itself: a body
/// that is present but not of the accepted shape.
#[derive(Clone, Copy, PartialEq, Eq, Structural, Debug)]
pub enum ServiceError {
    MalformedPayload,
}

/// What a request asks the service to do next.
pub enum Step {
    /// Issue the point read of the single row and answer from its result.
    ReadStatus,
    /// Issue the point write of this state and answer from its result.
    WriteStatus(Status),
    /// Answer at once; the store is not touched.
    Respond(HttpResponse),
    /// Give the request up: the body was present but malformed.
    Fail,
}

/// An optional body holds exactly this text.
pub open spec fn spec_body_is(o: Option<String>, v: Seq<char>) -> bool {
    o matches Some(b) && b@ == v
}

/// A response carries this status code and exactly this body text.
pub open spec fn spec_is_response(r: HttpResponse, code: int, v: Seq<char>) -> bool {
    &&& r.status_code == code
    &&& spec_body_is(r.body, v)
}

/// The routing decision: GET reads, POST validates its body and writes, and
/// every other method is refused without a store call.
pub fn route(method: Method, body: &RequestBody) -> (r: Step)
    ensures
        method is Get ==> r is ReadStatus,
        method is Post ==> match body {
            RequestBody::Empty => r matches Step::Respond(resp) && spec_is_response(
                resp,
                400,
                "{\"error\": \"Request body required\"}"@,
            ),
            RequestBody::Present(s) => match spec_parse_body(s@) {
                Some(g) => r matches Step::WriteStatus(st) && st == g.status,
                None => r is Fail,
            },
        },
        method is Other ==> (r matches Step::Respond(resp) && spec_is_response(
            resp,
            405,
            "{\"error\": \"Method not allowed\"}"@,
        )),
{
    match method {
        Method::Get => Step::ReadStatus,
        Method::Post => match body {
            RequestBody::Empty => Step::Respond(
                HttpResponse {
                    status_code: 400,
                    body: Some(String::from_str("{\"error\": \"Request body required\"}")),
                },
            ),
            RequestBody::Present(s) => match parse_garage_status(s.as_str()) {
                Some(g) => Step::WriteStatus(g.status),
                None => Step::Fail,
            },
        },
        Method::Other => Step::Respond(
            HttpResponse {
                status_code: 405,
                body: Some(String::from_str("{\"error\": \"Method not allowed\"}")),
            },
        ),
    }
}

/// The response of the read path: the decoded record (or the absent value)
/// with status 200; only a store failure yields status 500.
pub fn get_response(result: &Result<Option<String>, String>) -> (r: HttpResponse)
    ensures
        match *result {
            Ok(raw) => spec_is_response(
                r,
                200,
                spec_render_status(spec_interpret(opt_str_view(raw))),
            ),
            Err(e) => spec_is_response(r, 500, spec_error_body(e@)),
        },
{
    match result {
        Ok(raw) => {
            let parsed = interpret_stored(raw);
            HttpResponse { status_code: 200, body: Some(render_status_json(&parsed)) }
        },
        Err(e) => HttpResponse { status_code: 500, body: Some(error_body(e.as_str())) },
    }
}

/// The response of the write path: an empty body with status 200 on success;
/// a store failure yields status 500.
pub fn put_response(result: &Result<(), String>) -> (r: HttpResponse)
    ensures
        match *result {
            Ok(u) => r.status_code == 200 && r.body is None,
            Err(e) => spec_is_response(r, 500, spec_error_body(e@)),
        },
{
    match result {
        Ok(_) => HttpResponse { status_code: 200, body: None },
        Err(e) => HttpResponse { status_code: 500, body: Some(error_body(e.as_str())) },
    }
}

/// One whole request against a store: the full contract of the service.
pub fn handle_request(store: &mut StoreModel, method: Method, body: &RequestBody) -> (r: Result<
    HttpResponse,
    ServiceError,
>)
    requires
        old(store).gets < u64::MAX,
        old(store).puts < u64::MAX,
    ensures
        final(store).fault == old(store).fault,
        method is Get ==> {
            &&& final(store).stored == old(store).stored
            &&& final(store).puts == old(store).puts
            &&& final(store).gets == old(store).gets + 1
            &&& match old(store).fault {
                Some(m) => r matches Ok(resp) && spec_is_response(resp, 500, spec_error_body(m@)),
                None => r matches Ok(resp) && spec_is_response(
                    resp,
                    200,
                    spec_render_status(spec_interpret(store_contents(*old(store)))),
                ),
            }
        },
        method is Post ==> match body {
            RequestBody::Empty => {
                &&& *final(store) == *old(store)
                &&& r matches Ok(resp) && spec_is_response(
                    resp,
                    400,
                    "{\"error\": \"Request body required\"}"@,
                )
            },
            RequestBody::Present(s) => match spec_parse_body(s@) {
                None => {
                    &&& *final(store) == *old(store)
                    &&& r matches Err(e) && e is MalformedPayload
                },
                Some(g) => {
                    &&& final(store).gets == old(store).gets
                    &&& final(store).puts == old(store).puts + 1
                    &&& match old(store).fault {
                        Some(m) => {
                            &&& final(store).stored == old(store).stored
                            &&& r matches Ok(resp) && spec_is_response(
                                resp,
                                500,
                                spec_error_body(m@),
                            )
                        },
                        None => {
                            &&& store_contents(*final(store)) == Some(spec_encode(g.status))
                            &&& r matches Ok(resp) && resp.status_code == 200 && resp.body
                                is None
                        },
                    }
                },
            },
        },
        method is Other ==> {
            &&& *final(store) == *old(store)
            &&& r matches Ok(resp) && spec_is_response(
                resp,
                405,
                "{\"error\": \"Method not allowed\"}"@,
            )
        },
{
    match route(method, body) {
        Step::ReadStatus => {
            let result = store.get();
            Ok(get_response(&result))
        },
        Step::WriteStatus(st) => {
            let rec = build_put_record(&GarageDoorStatus { status: st });
            let result = store.put(&rec);
            Ok(put_response(&result))
        },
        Step::Respond(resp) => Ok(resp),
        Step::Fail => Err(ServiceError::MalformedPayload),
    }
}

/// Law: a read before any write — a store with no row — yields the
/// absent-value body, never an error.
pub proof fn lemma_fresh_read_is_absent()
    ensures
        spec_interpret(None::<Seq<char>>) is None,
        spec_render_status(None::<GarageDoorStatus>) == "null"@,
{
}

} // verus!
