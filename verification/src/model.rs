//! Plain-value model of the two HTTP representations that the adapter keeps in
//! lossless correspondence: the host runtime's request/response shape and the
//! dispatcher's request/reply shape.
//!
//! A body is a finite sequence of byte chunks; its observable content is the
//! chunk sequence (and, boundaries forgotten, the concatenation of the chunks).
//! A header map is an ordered list of name/value fields: keys may repeat and
//! the order is significant, so it is modelled as a sequence of pairs, not as
//! a map.

use vstd::prelude::*;

verus! {

/// One header field: a name and a value, both raw byte strings.
pub struct HeaderField {
    pub name: Vec<u8>,
    pub value: Vec<u8>,
}

impl HeaderField {
    /// The mathematical content of a field: the pair of its byte sequences.
    pub open spec fn model(self) -> (Seq<u8>, Seq<u8>) {
        (self.name@, self.value@)
    }
}

/// The content of an ordered header multimap: the fields' byte pairs, in order,
/// duplicates kept.
pub open spec fn headers_model(hs: Seq<HeaderField>) -> Seq<(Seq<u8>, Seq<u8>)> {
    hs.map_values(|h: HeaderField| h.model())
}

/// The content of a chunked body: the chunks' byte sequences, in order.
pub open spec fn chunks_model(cs: Seq<Vec<u8>>) -> Seq<Seq<u8>> {
    cs.map_values(|c: Vec<u8>| c@)
}

/// The total byte content of a chunked body, chunk boundaries forgotten.
pub open spec fn body_content(cs: Seq<Vec<u8>>) -> Seq<u8> {
    chunks_model(cs).flatten()
}

/// A request as the host runtime hands it in: method token, target URI
/// (path and query), ordered headers, chunked body.
pub struct HostRequest {
    pub method: Vec<u8>,
    pub uri: Vec<u8>,
    pub headers: Vec<HeaderField>,
    pub body: Vec<Vec<u8>>,
}

/// The same logical request in the shape the dispatcher consumes.
pub struct DispatcherRequest {
    pub method: Vec<u8>,
    pub uri: Vec<u8>,
    pub headers: Vec<HeaderField>,
    pub body: Vec<Vec<u8>>,
}

/// A response in the shape the host runtime takes back.
pub struct HostResponse {
    pub status: u16,
    pub headers: Vec<HeaderField>,
    pub body: Vec<Vec<u8>>,
}

/// The triple every dispatcher reply is normalized to before it crosses the
/// boundary: status code, headers, chunked body.
pub struct ReplyParts {
    pub status: u16,
    pub headers: Vec<HeaderField>,
    pub body: Vec<Vec<u8>>,
}

/// A reply value as the dispatcher yields it. The dispatcher produces several
/// concrete shapes; each one is normalizable to a [`ReplyParts`] triple.
pub enum DispatcherReply {
    /// Plain text: status 200 with a `content-type: text/plain` header.
    Text { body: Vec<u8> },
    /// A bare status code with no headers and an empty body.
    Status { status: u16 },
    /// An explicit status/headers/body triple.
    Custom { status: u16, headers: Vec<HeaderField>, body: Vec<Vec<u8>> },
}

/// The bytes the header-name token alphabet admits: digits, letters of either
/// case, and the punctuation `! # $ % & ' * + - . ^ _ ` | ~`.
pub open spec fn header_name_byte_ok(b: u8) -> bool {
    ||| (48 <= b && b <= 57)  // '0' ..= '9'
    ||| (97 <= b && b <= 122)  // 'a' ..= 'z'
    ||| (65 <= b && b <= 90)  // 'A' ..= 'Z'
    ||| b == 33  // '!'
    ||| b == 35  // '#'
    ||| b == 36  // '$'
    ||| b == 37  // '%'
    ||| b == 38  // '&'
    ||| b == 39  // '\''
    ||| b == 42  // '*'
    ||| b == 43  // '+'
    ||| b == 45  // '-'
    ||| b == 46  // '.'
    ||| b == 94  // '^'
    ||| b == 95  // '_'
    ||| b == 96  // '`'
    ||| b == 124  // '|'
    ||| b == 126  // '~'
}

/// A header name the representations accept: nonempty, at most 65535 bytes,
/// every byte in the token alphabet.
pub open spec fn header_name_ok(n: Seq<u8>) -> bool {
    &&& 1 <= n.len() <= 0xffff
    &&& forall|i: int| 0 <= i < n.len() ==> header_name_byte_ok(#[trigger] n[i])
}

/// The bytes a header value admits: horizontal tab, and every byte from space
/// upward except DEL.
pub open spec fn header_value_byte_ok(b: u8) -> bool {
    b == 9 || (b >= 32 && b != 127)
}

/// A header value the representations accept: every byte admissible.
pub open spec fn header_value_ok(v: Seq<u8>) -> bool {
    forall|i: int| 0 <= i < v.len() ==> header_value_byte_ok(#[trigger] v[i])
}

/// One header pair the representations accept.
pub open spec fn header_pair_ok(p: (Seq<u8>, Seq<u8>)) -> bool {
    header_name_ok(p.0) && header_value_ok(p.1)
}

/// A whole header set the representations accept.
pub open spec fn header_pairs_ok(ps: Seq<(Seq<u8>, Seq<u8>)>) -> bool {
    forall|i: int| 0 <= i < ps.len() ==> header_pair_ok(#[trigger] ps[i])
}

/// A status code the representations accept: 100 through 999.
pub open spec fn status_ok(s: u16) -> bool {
    100 <= s <= 999
}

/// The header name `content-type`, as bytes.
pub open spec fn content_type_name() -> Seq<u8> {
    seq![99u8, 111, 110, 116, 101, 110, 116, 45, 116, 121, 112, 101]
}

/// The header value `text/plain`, as bytes.
pub open spec fn text_plain_value() -> Seq<u8> {
    seq![116u8, 101, 120, 116, 47, 112, 108, 97, 105, 110]
}

/// The status code a reply normalizes to.
pub open spec fn reply_status(r: DispatcherReply) -> u16 {
    match r {
        DispatcherReply::Text { .. } => 200,
        DispatcherReply::Status { status } => status,
        DispatcherReply::Custom { status, .. } => status,
    }
}

/// The header set a reply normalizes to.
pub open spec fn reply_headers(r: DispatcherReply) -> Seq<(Seq<u8>, Seq<u8>)> {
    match r {
        DispatcherReply::Text { .. } => seq![(content_type_name(), text_plain_value())],
        DispatcherReply::Status { .. } => seq![],
        DispatcherReply::Custom { headers, .. } => headers_model(headers@),
    }
}

/// The body a reply normalizes to.
pub open spec fn reply_body(r: DispatcherReply) -> Seq<Seq<u8>> {
    match r {
        DispatcherReply::Text { body } => seq![body@],
        DispatcherReply::Status { .. } => seq![],
        DispatcherReply::Custom { body, .. } => chunks_model(body@),
    }
}

/// A host request converts to the dispatcher shape exactly when the dispatcher
/// representation accepts its header set. Method and URI are carried as opaque
/// bytes: this layer does not parse wire syntax.
pub open spec fn request_convertible(r: HostRequest) -> bool {
    header_pairs_ok(headers_model(r.headers@))
}

/// A dispatcher reply converts to the host shape exactly when the host
/// representation accepts its normalized status and header set.
pub open spec fn reply_convertible(r: DispatcherReply) -> bool {
    status_ok(reply_status(r)) && header_pairs_ok(reply_headers(r))
}

/// The dispatcher-shaped request a host request converts to: the same method,
/// URI, headers and body, moved field for field.
pub open spec fn dispatcher_request_of(r: HostRequest) -> DispatcherRequest {
    DispatcherRequest { method: r.method, uri: r.uri, headers: r.headers, body: r.body }
}

/// Law: a conversion that carries a body's chunk sequence over unchanged also
/// preserves the body's total byte content — no byte is reordered, duplicated
/// or dropped on the way across the boundary.
pub proof fn lemma_equal_chunks_equal_content(a: Seq<Vec<u8>>, b: Seq<Vec<u8>>)
    requires
        chunks_model(a) == chunks_model(b),
    ensures
        body_content(a) == body_content(b),
{
}

} // verus!
