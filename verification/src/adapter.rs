//! The service adapter's per-call pipeline. Each inbound call converts the
//! request, hands it to the dispatcher, and converts the reply back; a failure
//! at any stage is contained in a synthetic server-error response, so the
//! outer service contract never fails. The asynchronous dispatch itself is the
//! caller's outside work: it hands the outcome back as a [`DispatchOutcome`].

use vstd::prelude::*;

use crate::convert::{to_dispatcher_request, to_host_response};
use crate::model::{
    DispatcherReply, DispatcherRequest, HostRequest, HostResponse, chunks_model,
    dispatcher_request_of, headers_model, reply_body, reply_convertible, reply_headers,
    reply_status, request_convertible,
};

verus! {

/// The status every contained failure is downgraded to.
pub const INTERNAL_ERROR_STATUS: u16 = 500;

/// What the dispatcher's asynchronous work came to: a reply value, or a
/// dispatch-stage failure.
pub enum DispatchOutcome {
    Replied(DispatcherReply),
    Failed,
}

/// The decimal digits of `n`, most significant first.
pub open spec fn decimal_digits(n: nat) -> Seq<u8>
    decreases n,
{
    if n < 10 {
        seq![(48 + n) as u8]
    } else {
        decimal_digits(n / 10).push((48 + n % 10) as u8)
    }
}

/// The body of the synthetic failure response for a status: `Error: ` followed
/// by the status code's decimal digits.
pub open spec fn error_body(status: u16) -> Seq<u8> {
    seq![69u8, 114, 114, 111, 114, 58, 32] + decimal_digits(status as nat)
}

/// The synthetic failure response for a status: that status, no headers, one
/// body chunk naming the status.
pub open spec fn is_synthetic_error(r: HostResponse, status: u16) -> bool {
    &&& r.status == status
    &&& r.headers@.len() == 0
    &&& chunks_model(r.body@) == seq![error_body(status)]
}

/// The status code the adapter answers with, for every possible outcome of the
/// dispatch stage: the reply's own status where the reply converts, the
/// internal-error status everywhere else.
pub open spec fn answered_status(outcome: DispatchOutcome) -> u16 {
    match outcome {
        DispatchOutcome::Replied(rep) => if reply_convertible(rep) {
            reply_status(rep)
        } else {
            INTERNAL_ERROR_STATUS
        },
        DispatchOutcome::Failed => INTERNAL_ERROR_STATUS,
    }
}

/// Append the decimal digits of `n` to `out`, most significant first.
fn push_decimal(n: u16, out: &mut Vec<u8>)
    ensures
        final(out)@ == old(out)@ + decimal_digits(n as nat),
    decreases n,
{
    if n < 10 {
        out.push(48 + n as u8);
        proof {
            assert(out@ =~= old(out)@ + decimal_digits(n as nat));
        }
    } else {
        push_decimal(n / 10, out);
        out.push(48 + (n % 10) as u8);
        proof {
            assert(out@ =~= old(out)@ + decimal_digits(n as nat));
        }
    }
}

/// Build the minimal synthetic response for a failure status: the status
/// itself, no headers, and a one-chunk body naming the status. This
/// construction is total — no step of it can fail, so the outer contract's
/// unconditional "never fails" promise does not rest on a further fallback.
pub fn synthetic_response(status: u16) -> (r: HostResponse)
    ensures
        is_synthetic_error(r, status),
{
    let mut text: Vec<u8> = Vec::new();
    text.push(69);  // 'E'
    text.push(114);  // 'r'
    text.push(114);  // 'r'
    text.push(111);  // 'o'
    text.push(114);  // 'r'
    text.push(58);  // ':'
    text.push(32);  // ' '
    proof {
        assert(text@ =~= seq![69u8, 114, 114, 111, 114, 58, 32]);
    }
    push_decimal(status, &mut text);
    let mut chunks: Vec<Vec<u8>> = Vec::new();
    chunks.push(text);
    let r = HostResponse { status, headers: Vec::new(), body: chunks };
    proof {
        assert(chunks_model(r.body@) =~= seq![error_body(status)]);
    }
    r
}

/// The first stage of a call: convert the inbound request to the dispatcher
/// shape. On success the dispatcher-shaped request is handed out for the
/// dispatch stage; on failure the call is already finished, with the synthetic
/// internal-error response.
pub fn accept_request(req: HostRequest) -> (r: Result<DispatcherRequest, HostResponse>)
    ensures
        r is Ok <==> request_convertible(req),
        r matches Ok(d) ==> d == dispatcher_request_of(req),
        r matches Err(resp) ==> is_synthetic_error(resp, INTERNAL_ERROR_STATUS),
{
    match to_dispatcher_request(req) {
        Ok(d) => Ok(d),
        Err(_) => Err(synthetic_response(INTERNAL_ERROR_STATUS)),
    }
}

/// The last stage of a call: turn the dispatch outcome into the response the
/// host runtime receives. The function is total — every outcome, a dispatch
/// failure included, yields an ordinary response, never an error of the outer
/// contract. A convertible reply passes through with its exact status, headers
/// and body; everything else is contained in the synthetic internal-error
/// response.
pub fn complete_exchange(outcome: DispatchOutcome) -> (r: HostResponse)
    ensures
        r.status == answered_status(outcome),
        outcome matches DispatchOutcome::Replied(rep) ==> {
            &&& reply_convertible(rep) ==> {
                &&& r.status == reply_status(rep)
                &&& headers_model(r.headers@) == reply_headers(rep)
                &&& chunks_model(r.body@) == reply_body(rep)
            }
            &&& !reply_convertible(rep) ==> is_synthetic_error(r, INTERNAL_ERROR_STATUS)
        },
        outcome is Failed ==> is_synthetic_error(r, INTERNAL_ERROR_STATUS),
{
    match outcome {
        DispatchOutcome::Replied(rep) => match to_host_response(rep) {
            Ok(resp) => resp,
            Err(_) => synthetic_response(INTERNAL_ERROR_STATUS),
        },
        DispatchOutcome::Failed => synthetic_response(INTERNAL_ERROR_STATUS),
    }
}

/// The readiness contract: the adapter queues nothing and admits every call,
/// so a readiness poll reports ready, whenever it is made and however many
/// calls are in flight. The decision reads no state at all, so any number of
/// polls, interleaved with any calls, answer alike.
pub fn ready_to_accept() -> (r: bool)
    ensures
        r,
{
    true
}

/// Law: failure containment. Whatever the dispatch stage did — and whatever
/// reply value it produced — the status the adapter answers with is defined,
/// and for every failing behavior (a dispatch failure, or a reply the host
/// representation rejects) it is a server-error status.
pub proof fn lemma_failure_contained(outcome: DispatchOutcome)
    ensures
        outcome is Failed || (outcome matches DispatchOutcome::Replied(rep)
            && !reply_convertible(rep)) ==> 500 <= answered_status(outcome) <= 599,
{
}

/// Law: round-trip fidelity, request side. The dispatcher-shaped request a
/// convertible host request maps to carries exactly the host request's own
/// method, URI, header pairs and body chunks — the layer lets the dispatcher
/// observe nothing else.
pub proof fn lemma_request_fidelity(req: HostRequest)
    requires
        request_convertible(req),
    ensures
        dispatcher_request_of(req).method@ == req.method@,
        dispatcher_request_of(req).uri@ == req.uri@,
        headers_model(dispatcher_request_of(req).headers@) == headers_model(req.headers@),
        chunks_model(dispatcher_request_of(req).body@) == chunks_model(req.body@),
{
}

} // verus!
