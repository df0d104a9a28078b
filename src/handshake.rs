//! The upgrade negotiation: header lookup and validation, the accept-key
//! computation, and the response descriptor for an upgrade request.
use vstd::prelude::*;
use vstd::string::{StringExecFns, StringSliceAdditionalSpecFns};

use crate::digest::{base64_encode, base64_of, sha1_digest, sha1_of};

verus! {

/// The fixed GUID that a server appends to the client's key.
pub const WEBSOCKET_GUID: &'static str = "258EAFA5-E914-47DA-95CA-C5AB0DC85B11";

/// The GUID as the bytes that take part in the digest.
pub open spec fn websocket_guid() -> Seq<u8> {
    WEBSOCKET_GUID.spec_bytes()
}

/// The `Sec-WebSocket-Accept` value that answers a client key.
pub open spec fn accept_value(key: Seq<u8>) -> Seq<char> {
    base64_of(sha1_of(key + websocket_guid()))
}

/// Copies the bytes of `a` followed by those of `b`.
fn concat_bytes(a: &[u8], b: &[u8]) -> (r: Vec<u8>)
    ensures
        r@ == a@ + b@,
{
    let mut r: Vec<u8> = Vec::new();
    let mut i: usize = 0;
    while i < a.len()
        invariant
            i <= a@.len(),
            r@ == a@.subrange(0, i as int),
        decreases a@.len() - i,
    {
        r.push(a[i]);
        i = i + 1;
        assert(r@ =~= a@.subrange(0, i as int));
    }
    assert(a@.subrange(0, a@.len() as int) =~= a@);
    let mut j: usize = 0;
    while j < b.len()
        invariant
            j <= b@.len(),
            r@ == a@ + b@.subrange(0, j as int),
        decreases b@.len() - j,
    {
        r.push(b[j]);
        j = j + 1;
        assert(r@ =~= a@ + b@.subrange(0, j as int));
    }
    assert(b@.subrange(0, b@.len() as int) =~= b@);
    r
}

/// Computes the `Sec-WebSocket-Accept` value for a client key: the base64
/// encoding of the SHA-1 digest of the key followed by the GUID.
pub fn accept_key(key: &[u8]) -> (r: String)
    ensures
        r@ == accept_value(key@),
        r@.len() == 28,
{
    let input = concat_bytes(key, WEBSOCKET_GUID.as_bytes());
    let digest = sha1_digest(input.as_slice());
    base64_encode(digest.as_slice())
}

/// One header of an inbound request, as the bytes that came on the wire.
#[derive(Debug, PartialEq, Eq)]
pub struct HeaderField {
    pub name: Vec<u8>,
    pub value: Vec<u8>,
}

/// An inbound HTTP request: method, path and headers, in arrival order.
#[derive(Debug, PartialEq, Eq)]
pub struct InboundRequest {
    pub method: Vec<u8>,
    pub path: Vec<u8>,
    pub headers: Vec<HeaderField>,
}

/// Why an upgrade request is refused.
#[derive(Clone, Copy, Debug, PartialEq, Eq, Structural)]
pub enum HandshakeError {
    /// The request carries no `Upgrade` header.
    MissingUpgradeHeader,
    /// The request asks for an upgrade but carries no `Sec-WebSocket-Key`,
    /// so no accept value could be computed for it. Accepting such a request
    /// would answer with an incomplete handshake, so it is refused instead.
    MissingWebSocketKey,
}

/// The headers that an accepted upgrade response sets.
#[derive(Clone, Copy, Debug, PartialEq, Eq, Structural)]
pub enum HeaderName {
    Upgrade,
    Connection,
    SecWebSocketAccept,
}

/// One header of the response.
#[derive(Debug, PartialEq, Eq)]
pub struct ResponseHeader {
    pub name: HeaderName,
    pub value: String,
}

impl View for ResponseHeader {
    type V = (HeaderName, Seq<char>);

    open spec fn view(&self) -> (HeaderName, Seq<char>) {
        (self.name, self.value@)
    }
}

/// The answer to an upgrade request: produced once, never changed after.
#[derive(Debug, PartialEq, Eq)]
pub enum HandshakeOutcome {
    Rejected { status: u16, reason: HandshakeError },
    Accepted { status: u16, headers: Vec<ResponseHeader> },
}

/// What a `HandshakeOutcome` says, with its text as character sequences.
pub enum OutcomeView {
    Rejected { status: u16, reason: HandshakeError },
    Accepted { status: u16, headers: Seq<(HeaderName, Seq<char>)> },
}

impl View for HandshakeOutcome {
    type V = OutcomeView;

    open spec fn view(&self) -> OutcomeView {
        match self {
            HandshakeOutcome::Rejected { status, reason } => OutcomeView::Rejected {
                status: *status,
                reason: *reason,
            },
            HandshakeOutcome::Accepted { status, headers } => OutcomeView::Accepted {
                status: *status,
                headers: headers@.map_values(|h: ResponseHeader| h@),
            },
        }
    }
}

pub const STATUS_SWITCHING_PROTOCOLS: u16 = 101;

pub const STATUS_BAD_REQUEST: u16 = 400;

/// Header names, in the lower case in which they are compared.
pub const UPGRADE_HEADER: &'static str = "upgrade";

pub const SEC_WEBSOCKET_KEY_HEADER: &'static str = "sec-websocket-key";

pub const UPGRADE_VALUE: &'static str = "websocket";

pub const CONNECTION_VALUE: &'static str = "Upgrade";

pub open spec fn ascii_lower(b: u8) -> u8 {
    if 65 <= b <= 90 {
        (b + 32) as u8
    } else {
        b
    }
}

/// Two header names are the same name when they agree up to ASCII case.
pub open spec fn names_match(a: Seq<u8>, b: Seq<u8>) -> bool {
    &&& a.len() == b.len()
    &&& forall|i: int| 0 <= i < a.len() ==> ascii_lower(#[trigger] a[i]) == ascii_lower(b[i])
}

/// The value of the first header named `name`, if any.
pub open spec fn header_lookup(headers: Seq<HeaderField>, name: Seq<u8>) -> Option<Seq<u8>>
    decreases headers.len(),
{
    if headers.len() == 0 {
        None
    } else if names_match(headers[0].name@, name) {
        Some(headers[0].value@)
    } else {
        header_lookup(headers.drop_first(), name)
    }
}

/// The client key of a valid upgrade request, or why the request is refused.
pub open spec fn spec_validate(headers: Seq<HeaderField>) -> Result<Seq<u8>, HandshakeError> {
    if header_lookup(headers, UPGRADE_HEADER.spec_bytes()) is None {
        Err(HandshakeError::MissingUpgradeHeader)
    } else {
        match header_lookup(headers, SEC_WEBSOCKET_KEY_HEADER.spec_bytes()) {
            None => Err(HandshakeError::MissingWebSocketKey),
            Some(key) => Ok(key),
        }
    }
}

/// The headers of an accepted upgrade, in the order they are set.
pub open spec fn accepted_headers(accept: Seq<char>) -> Seq<(HeaderName, Seq<char>)> {
    seq![
        (HeaderName::Upgrade, UPGRADE_VALUE@),
        (HeaderName::Connection, CONNECTION_VALUE@),
        (HeaderName::SecWebSocketAccept, accept),
    ]
}

/// The outcome that a request with these headers receives.
pub open spec fn spec_negotiate(headers: Seq<HeaderField>) -> OutcomeView {
    match spec_validate(headers) {
        Err(e) => OutcomeView::Rejected { status: 400, reason: e },
        Ok(key) => OutcomeView::Accepted { status: 101, headers: accepted_headers(accept_value(key)) },
    }
}

/// Compares two header names up to ASCII case.
pub fn names_equal(a: &[u8], b: &[u8]) -> (r: bool)
    ensures
        r == names_match(a@, b@),
{
    if a.len() != b.len() {
        return false;
    }
    let mut i: usize = 0;
    while i < a.len()
        invariant
            a@.len() == b@.len(),
            i <= a@.len(),
            forall|k: int| 0 <= k < i ==> ascii_lower(#[trigger] a@[k]) == ascii_lower(b@[k]),
        decreases a@.len() - i,
    {
        let x = a[i];
        let y = b[i];
        let lx: u8 = if 65 <= x && x <= 90 { x + 32 } else { x };
        let ly: u8 = if 65 <= y && y <= 90 { y + 32 } else { y };
        if lx != ly {
            return false;
        }
        i = i + 1;
    }
    true
}

/// The position of the first header named `name`, if any.
fn find_header(headers: &Vec<HeaderField>, name: &[u8]) -> (r: Option<usize>)
    ensures
        match r {
            None => header_lookup(headers@, name@) is None,
            Some(i) => i < headers@.len() && header_lookup(headers@, name@) == Some(
                headers@[i as int].value@,
            ),
        },
{
    let mut i: usize = 0;
    assert(headers@.subrange(0, headers@.len() as int) =~= headers@);
    while i < headers.len()
        invariant
            i <= headers@.len(),
            header_lookup(headers@, name@) == header_lookup(
                headers@.subrange(i as int, headers@.len() as int),
                name@,
            ),
        decreases headers@.len() - i,
    {
        let rest = Ghost(headers@.subrange(i as int, headers@.len() as int));
        assert(rest@[0] == headers@[i as int]);
        if names_equal(headers[i].name.as_slice(), name) {
            return Some(i);
        }
        assert(rest@.drop_first() =~= headers@.subrange(i + 1, headers@.len() as int));
        i = i + 1;
    }
    None
}

/// Checks that a request asks for an upgrade and carries a client key, and
/// hands back that key.
pub fn validate_headers(req: &InboundRequest) -> (r: Result<Vec<u8>, HandshakeError>)
    ensures
        match r {
            Ok(key) => spec_validate(req.headers@) == Ok::<Seq<u8>, HandshakeError>(key@),
            Err(e) => spec_validate(req.headers@) == Err::<Seq<u8>, HandshakeError>(e),
        },
{
    match find_header(&req.headers, UPGRADE_HEADER.as_bytes()) {
        None => Err(HandshakeError::MissingUpgradeHeader),
        Some(_) => match find_header(&req.headers, SEC_WEBSOCKET_KEY_HEADER.as_bytes()) {
            None => Err(HandshakeError::MissingWebSocketKey),
            Some(k) => Ok(vstd::slice::slice_to_vec(req.headers[k].value.as_slice())),
        },
    }
}

/// Describes the response to an upgrade request: `400` when it is refused,
/// else `101` with the upgrade headers and the accept value for its key.
/// Nothing is sent and the transport is not touched.
pub fn negotiate(req: &InboundRequest) -> (r: HandshakeOutcome)
    ensures
        r@ == spec_negotiate(req.headers@),
        r@ is Accepted ==> r@->Accepted_headers[2].1.len() == 28,
{
    match validate_headers(req) {
        Err(e) => HandshakeOutcome::Rejected { status: STATUS_BAD_REQUEST, reason: e },
        Ok(key) => {
            let accept = accept_key(key.as_slice());
            let mut headers: Vec<ResponseHeader> = Vec::new();
            headers.push(
                ResponseHeader { name: HeaderName::Upgrade, value: String::from_str(UPGRADE_VALUE) },
            );
            headers.push(
                ResponseHeader {
                    name: HeaderName::Connection,
                    value: String::from_str(CONNECTION_VALUE),
                },
            );
            headers.push(ResponseHeader { name: HeaderName::SecWebSocketAccept, value: accept });
            let r = HandshakeOutcome::Accepted { status: STATUS_SWITCHING_PROTOCOLS, headers };
            assert(headers@.map_values(|h: ResponseHeader| h@) =~= accepted_headers(
                accept_value(key@),
            ));
            r
        },
    }
}

/// Two computations of the accept value for the same key agree: the value
/// depends on the key alone.
pub proof fn lemma_accept_key_deterministic(k1: Seq<u8>, k2: Seq<u8>)
    requires
        k1 == k2,
    ensures
        accept_value(k1) == accept_value(k2),
{
}

} // verus!
