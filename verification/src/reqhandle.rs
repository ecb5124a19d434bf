//! Handling one client request: parse the raw bytes, route the request, and
//! render the response bytes.
//!
//! Reading from and writing to the connection stay with the caller; this
//! module takes the bytes that were read and returns the bytes to write. A
//! request whose routing fails is abandoned — no response bytes are produced
//! for it — which mirrors a request given up mid-handling.

use crate::operator::dispatch_result;
use crate::operator::Operator;
use crate::operator::Request;
use crate::operator::RouteEntry;
use crate::operator::RequestView;
use crate::response::response_text;
use crate::response::HeaderView;
use crate::response::Response;
use crate::response::ResponseBuilder;
use crate::response::ResponseView;
use vstd::prelude::*;
use vstd::utf8::encode_utf8;

verus! {

/// What parsing a request buffer yields: the request's read parts, or the
/// text of the parse error. The outcome is a function of the bytes alone.
pub uninterp spec fn http_parse(b: Seq<u8>) -> Result<RequestView, Seq<char>>;

/// Relies on httparse::Request::parse (with room for 64 headers, as the
/// server reads requests) and httparse::Error's displayed text: both are
/// functions of the buffer alone.
#[verifier::external_body]
fn parse_request(buf: &[u8]) -> (r: Result<Request, String>)
    ensures
        (match r {
            Ok(req) => http_parse(buf@) matches Ok(m) && req@ == m,
            Err(s) => http_parse(buf@) matches Err(t) && s@ == t,
        }),
{
    let mut headers = [httparse::EMPTY_HEADER; 64];
    let mut req = httparse::Request::new(&mut headers);
    match req.parse(buf) {
        Ok(_) => Ok(Request {
            method: req.method.map(|m| m.to_string()),
            path: req.path.map(|p| p.to_string()),
        }),
        Err(e) => Err(e.to_string()),
    }
}

/// Answer a routed request: a bare success response carrying the matched
/// route's body; a request whose routing failed is abandoned (no response).
/// The flag asks the caller to create the test route's marker file.
pub fn handle_request(req: &Request, operator: &mut Operator) -> (r: (Option<Response>, bool))
    ensures
        *final(operator) == *old(operator),
        (match dispatch_result(old(operator).spec_entries(), req@).0 {
            Ok(body) => r.0 matches Some(resp) && resp@ == (ResponseView {
                status_code: 200,
                headers: Seq::<HeaderView>::empty(),
                body,
            }),
            Err(_) => r.0 is None,
        }),
        r.1 == dispatch_result(old(operator).spec_entries(), req@).1,
{
    let d = operator.dispatch(req);
    match d.0 {
        Ok(body) => {
            let mut builder = ResponseBuilder::success().body(body);
            (Some(builder.build()), d.1)
        },
        Err(_) => (None, d.1),
    }
}

/// The model of an optional byte vector.
pub open spec fn opt_bytes_view(o: Option<Vec<u8>>) -> Option<Seq<u8>> {
    match o {
        Some(v) => Some(v@),
        None => None,
    }
}

/// What handling a request buffer yields, over the parse outcome and the
/// routing table: a bad-request response carrying the parse error's text; or
/// the routed response; or nothing, for an abandoned request. The flag asks
/// for the test route's marker file.
pub open spec fn handled_bytes(parsed: Result<RequestView, Seq<char>>, es: Seq<
    RouteEntry,
>) -> (Option<Seq<u8>>, bool) {
    match parsed {
        Err(msg) => (
            Some(
                encode_utf8(
                    response_text(
                        ResponseView {
                            status_code: 400,
                            headers: Seq::<HeaderView>::empty(),
                            body: msg,
                        },
                    ),
                ),
            ),
            false,
        ),
        Ok(req) => (match dispatch_result(es, req) {
            (Ok(body), w) => (
                Some(
                    encode_utf8(
                        response_text(
                            ResponseView {
                                status_code: 200,
                                headers: Seq::<HeaderView>::empty(),
                                body,
                            },
                        ),
                    ),
                ),
                w,
            ),
            (Err(_), w) => (None, w),
        }),
    }
}

/// Handle one client request, from the bytes read off the connection to the
/// bytes to write back: parse, route, render. The flag asks the caller to
/// create the test route's marker file.
pub fn handle_bytes(buf: &[u8], operator: &mut Operator) -> (r: (Option<Vec<u8>>, bool))
    ensures
        *final(operator) == *old(operator),
        (opt_bytes_view(r.0), r.1) == handled_bytes(
            http_parse(buf@),
            old(operator).spec_entries(),
        ),
{
    match parse_request(buf) {
        Err(errmsg) => {
            let mut builder = ResponseBuilder::bad_request().body(errmsg);
            let bytes = builder.build().bytes();
            (Some(bytes), false)
        },
        Ok(request) => {
            let handled = handle_request(&request, operator);
            match handled.0 {
                Some(resp) => (Some(resp.bytes()), handled.1),
                None => (None, handled.1),
            }
        },
    }
}

} // verus!
