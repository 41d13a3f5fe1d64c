//! Whether the underlying representations accept a header set or a status
//! code. The questions are decided by the `http` crate itself — the same crate
//! both frameworks re-export, so one answer holds on both sides of the
//! boundary — and the verified checks here lift its answers to whole header
//! sets.

use vstd::prelude::*;

use crate::model::{
    HeaderField, header_name_ok, header_pair_ok, header_pairs_ok, header_value_ok, headers_model,
    status_ok,
};

verus! {

/// Relies on `http::HeaderName::from_bytes` (the `http` crate, re-exported by
/// both frameworks as `axum::http` and `warp::http`): it accepts exactly the
/// byte strings of length 1 through 65535 whose bytes all lie in the
/// header-name token alphabet.
#[verifier::external_body]
fn probe_header_name(name: &Vec<u8>) -> (r: bool)
    ensures
        r == header_name_ok(name@),
{
    axum::http::HeaderName::from_bytes(name.as_slice()).is_ok()
}

/// Relies on `http::HeaderValue::from_bytes` (the `http` crate, re-exported by
/// both frameworks): it accepts exactly the byte strings whose bytes are
/// horizontal tab or any byte from space upward except DEL.
#[verifier::external_body]
fn probe_header_value(value: &Vec<u8>) -> (r: bool)
    ensures
        r == header_value_ok(value@),
{
    axum::http::HeaderValue::from_bytes(value.as_slice()).is_ok()
}

/// Relies on `http::StatusCode::from_u16` (the `http` crate, re-exported by
/// both frameworks): it accepts exactly the codes 100 through 999.
#[verifier::external_body]
pub fn status_accepted(status: u16) -> (r: bool)
    ensures
        r == status_ok(status),
{
    axum::http::StatusCode::from_u16(status).is_ok()
}

/// Whether the representations accept every header field of the list: each
/// name and each value is put to the underlying crate in turn.
pub fn headers_accepted(hs: &Vec<HeaderField>) -> (r: bool)
    ensures
        r == header_pairs_ok(headers_model(hs@)),
{
    let mut i: usize = 0;
    while i < hs.len()
        invariant
            i <= hs@.len(),
            forall|j: int| 0 <= j < i ==> header_pair_ok(#[trigger] headers_model(hs@)[j]),
        decreases hs@.len() - i,
    {
        let name_ok = probe_header_name(&hs[i].name);
        let value_ok = probe_header_value(&hs[i].value);
        if !name_ok || !value_ok {
            assert(!header_pair_ok(headers_model(hs@)[i as int]));
            return false;
        }
        i += 1;
    }
    true
}

} // verus!
