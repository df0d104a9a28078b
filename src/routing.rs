//! Routing of inbound requests, and the handoff from an accepted upgrade to
//! the session that will run on the upgraded connection.
use vstd::prelude::*;
use vstd::string::{StringExecFns, StringSliceAdditionalSpecFns};

use crate::handshake::{
    accept_value, header_lookup, negotiate, spec_negotiate, HandshakeError, HandshakeOutcome,
    HeaderName, InboundRequest, OutcomeView, SEC_WEBSOCKET_KEY_HEADER, UPGRADE_HEADER,
};
use crate::session::{ConnectionSession, MessageHandler, RouteHandler, SessionPhase, VersionHandler};

verus! {

pub const METHOD_GET: &'static str = "GET";

pub const MESSAGES_PATH: &'static str = "/messages";

pub const VERSION_PATH: &'static str = "/version";

/// The body of the plain response to a request that asks for no upgrade.
pub const PLAIN_BODY: &'static str = "Hello Rust!";

pub const STATUS_OK: u16 = 200;

/// The handler that a method and path select, if any.
pub open spec fn spec_route(method: Seq<u8>, path: Seq<u8>) -> Option<RouteHandler> {
    if method == METHOD_GET.spec_bytes() && path == MESSAGES_PATH.spec_bytes() {
        Some(RouteHandler::Messages(MessageHandler()))
    } else if method == METHOD_GET.spec_bytes() && path == VERSION_PATH.spec_bytes() {
        Some(RouteHandler::Version(VersionHandler()))
    } else {
        None
    }
}

/// Compares two byte strings exactly.
fn bytes_equal(a: &[u8], b: &[u8]) -> (r: bool)
    ensures
        r == (a@ == b@),
{
    if a.len() != b.len() {
        return false;
    }
    let mut i: usize = 0;
    while i < a.len()
        invariant
            a@.len() == b@.len(),
            i <= a@.len(),
            forall|k: int| 0 <= k < i ==> a@[k] == b@[k],
        decreases a@.len() - i,
    {
        if a[i] != b[i] {
            return false;
        }
        i = i + 1;
    }
    assert(a@ =~= b@);
    true
}

/// Selects the handler for a method and path: `GET /messages` and
/// `GET /version` upgrade, anything else does not.
pub fn route(method: &[u8], path: &[u8]) -> (r: Option<RouteHandler>)
    ensures
        r == spec_route(method@, path@),
{
    if !bytes_equal(method, METHOD_GET.as_bytes()) {
        None
    } else if bytes_equal(path, MESSAGES_PATH.as_bytes()) {
        Some(RouteHandler::Messages(MessageHandler()))
    } else if bytes_equal(path, VERSION_PATH.as_bytes()) {
        Some(RouteHandler::Version(VersionHandler()))
    } else {
        None
    }
}

/// Answers an upgrade request for a route. The session comes back only when
/// the upgrade is accepted: a refused request never gets a connection task.
pub fn upgrade_connection(req: &InboundRequest, callback: RouteHandler) -> (r: (
    HandshakeOutcome,
    Option<ConnectionSession>,
))
    ensures
        r.0@ == spec_negotiate(req.headers@),
        r.1 == (if r.0@ is Accepted {
            Some(ConnectionSession { phase: SessionPhase::PendingUpgrade, handler: callback })
        } else {
            None
        }),
        header_lookup(req.headers@, UPGRADE_HEADER.spec_bytes()) is None ==> r.0@ == (
        OutcomeView::Rejected { status: 400, reason: HandshakeError::MissingUpgradeHeader })
            && r.1 is None,
        header_lookup(req.headers@, UPGRADE_HEADER.spec_bytes()) is Some && header_lookup(
            req.headers@,
            SEC_WEBSOCKET_KEY_HEADER.spec_bytes(),
        ) is Some ==> {
            &&& r.0@ is Accepted
            &&& r.0@->Accepted_status == 101
            &&& r.0@->Accepted_headers[2] == (
                HeaderName::SecWebSocketAccept,
                accept_value(
                    header_lookup(req.headers@, SEC_WEBSOCKET_KEY_HEADER.spec_bytes())->0,
                ),
            )
            &&& r.0@->Accepted_headers[2].1.len() > 0
            &&& r.1 is Some
        },
{
    let outcome = negotiate(req);
    match outcome {
        HandshakeOutcome::Accepted { .. } => (outcome, Some(ConnectionSession::new(callback))),
        HandshakeOutcome::Rejected { .. } => (outcome, None),
    }
}

/// What the server answers to a request.
#[derive(Debug, PartialEq, Eq)]
pub enum ServerReply {
    /// A plain response with no upgrade.
    Plain { status: u16, body: String },
    /// An upgrade outcome, with the session to run once it is accepted.
    Upgrade { outcome: HandshakeOutcome, session: Option<ConnectionSession> },
}

/// Routes a request: an upgrade route goes through `upgrade_connection`,
/// anything else gets `200` with the plain body.
pub fn server_kernel(req: &InboundRequest) -> (r: ServerReply)
    ensures
        match spec_route(req.method@, req.path@) {
            None => r matches ServerReply::Plain { status, body } && status == 200 && body@
                == PLAIN_BODY@,
            Some(h) => r matches ServerReply::Upgrade { outcome, session } && outcome@
                == spec_negotiate(req.headers@) && session == (if outcome@ is Accepted {
                Some(ConnectionSession { phase: SessionPhase::PendingUpgrade, handler: h })
            } else {
                None
            }),
        },
{
    match route(req.method.as_slice(), req.path.as_slice()) {
        Some(handler) => {
            let (outcome, session) = upgrade_connection(req, handler);
            ServerReply::Upgrade { outcome, session }
        },
        None => ServerReply::Plain { status: STATUS_OK, body: String::from_str(PLAIN_BODY) },
    }
}

} // verus!
