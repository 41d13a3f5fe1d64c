//! The request/response converter: structural, loss-free mapping between the
//! host shape and the dispatcher shape. Conversion copies method, URI, headers
//! and body chunks unchanged; it fails exactly when the target representation
//! rejects the header set or the status code.

use vstd::prelude::*;

use crate::model::{
    DispatcherReply, DispatcherRequest, HeaderField, HostRequest, HostResponse, ReplyParts,
    chunks_model, content_type_name, dispatcher_request_of, header_pairs_ok, headers_model,
    reply_body, reply_convertible, reply_headers, reply_status, request_convertible, status_ok,
    text_plain_value,
};
use crate::validate::{headers_accepted, status_accepted};

verus! {

/// Why a conversion failed: the target representation rejected the header set,
/// or it rejected the status code.
pub enum ConversionError {
    Header,
    Status,
}

/// Convert a host-shaped request to the dispatcher shape. Method, URI, headers
/// and body chunks are carried over unchanged, field for field; the conversion
/// fails exactly when the dispatcher representation rejects a header.
pub fn to_dispatcher_request(req: HostRequest) -> (r: Result<DispatcherRequest, ConversionError>)
    ensures
        r is Ok <==> request_convertible(req),
        r matches Ok(d) ==> d == dispatcher_request_of(req),
        r matches Err(e) ==> e is Header,
{
    if headers_accepted(&req.headers) {
        Ok(DispatcherRequest {
            method: req.method,
            uri: req.uri,
            headers: req.headers,
            body: req.body,
        })
    } else {
        Err(ConversionError::Header)
    }
}

/// The `content-type: text/plain` header field.
fn content_type_text_plain() -> (h: HeaderField)
    ensures
        h.name@ == content_type_name(),
        h.value@ == text_plain_value(),
{
    let mut name: Vec<u8> = Vec::new();
    name.push(99);  // 'c'
    name.push(111);  // 'o'
    name.push(110);  // 'n'
    name.push(116);  // 't'
    name.push(101);  // 'e'
    name.push(110);  // 'n'
    name.push(116);  // 't'
    name.push(45);  // '-'
    name.push(116);  // 't'
    name.push(121);  // 'y'
    name.push(112);  // 'p'
    name.push(101);  // 'e'
    let mut value: Vec<u8> = Vec::new();
    value.push(116);  // 't'
    value.push(101);  // 'e'
    value.push(120);  // 'x'
    value.push(116);  // 't'
    value.push(47);  // '/'
    value.push(112);  // 'p'
    value.push(108);  // 'l'
    value.push(97);  // 'a'
    value.push(105);  // 'i'
    value.push(110);  // 'n'
    proof {
        assert(name@ =~= content_type_name());
        assert(value@ =~= text_plain_value());
    }
    HeaderField { name, value }
}

/// Normalize a dispatcher reply to its status/headers/body triple. Every reply
/// shape reduces to the one capability the boundary needs.
pub fn normalize_reply(reply: DispatcherReply) -> (p: ReplyParts)
    ensures
        p.status == reply_status(reply),
        headers_model(p.headers@) == reply_headers(reply),
        chunks_model(p.body@) == reply_body(reply),
{
    match reply {
        DispatcherReply::Text { body } => {
            let mut headers: Vec<HeaderField> = Vec::new();
            headers.push(content_type_text_plain());
            let mut chunks: Vec<Vec<u8>> = Vec::new();
            chunks.push(body);
            let p = ReplyParts { status: 200, headers, body: chunks };
            proof {
                assert(headers_model(p.headers@) =~= reply_headers(reply));
                assert(chunks_model(p.body@) =~= reply_body(reply));
            }
            p
        },
        DispatcherReply::Status { status } => {
            let p = ReplyParts { status, headers: Vec::new(), body: Vec::new() };
            proof {
                assert(headers_model(p.headers@) =~= reply_headers(reply));
                assert(chunks_model(p.body@) =~= reply_body(reply));
            }
            p
        },
        DispatcherReply::Custom { status, headers, body } => {
            ReplyParts { status, headers, body }
        },
    }
}

/// Convert a dispatcher reply to the host shape. The reply is first normalized
/// to its triple; status code, headers and body chunks are then carried over
/// unchanged. The conversion fails exactly when the host representation
/// rejects the status code (`Status`) or, the status standing, a header
/// (`Header`).
pub fn to_host_response(reply: DispatcherReply) -> (r: Result<HostResponse, ConversionError>)
    ensures
        r is Ok <==> reply_convertible(reply),
        r matches Ok(h) ==> {
            &&& h.status == reply_status(reply)
            &&& headers_model(h.headers@) == reply_headers(reply)
            &&& chunks_model(h.body@) == reply_body(reply)
        },
        !status_ok(reply_status(reply)) ==> (r matches Err(e) && e is Status),
        status_ok(reply_status(reply)) && !header_pairs_ok(reply_headers(reply)) ==> (r
            matches Err(e) && e is Header),
{
    let parts = normalize_reply(reply);
    if !status_accepted(parts.status) {
        return Err(ConversionError::Status);
    }
    if !headers_accepted(&parts.headers) {
        return Err(ConversionError::Header);
    }
    Ok(HostResponse { status: parts.status, headers: parts.headers, body: parts.body })
}

} // verus!
