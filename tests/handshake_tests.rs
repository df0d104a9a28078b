use ws_gateway::handshake::{
    accept_key, names_equal, negotiate, validate_headers, HandshakeError, HandshakeOutcome,
    HeaderField, HeaderName, InboundRequest, ResponseHeader,
};
use ws_gateway::routing::{route, server_kernel, upgrade_connection, ServerReply};
use ws_gateway::session::{
    ConnectionSession, MessageHandler, RouteHandler, SessionPhase, VersionHandler,
};

fn field(name: &str, value: &str) -> HeaderField {
    HeaderField { name: name.as_bytes().to_vec(), value: value.as_bytes().to_vec() }
}

fn request(method: &str, path: &str, headers: Vec<HeaderField>) -> InboundRequest {
    InboundRequest {
        method: method.as_bytes().to_vec(),
        path: path.as_bytes().to_vec(),
        headers,
    }
}

fn accepted(accept: &str) -> HandshakeOutcome {
    HandshakeOutcome::Accepted {
        status: 101,
        headers: vec![
            ResponseHeader { name: HeaderName::Upgrade, value: "websocket".to_string() },
            ResponseHeader { name: HeaderName::Connection, value: "Upgrade".to_string() },
            ResponseHeader { name: HeaderName::SecWebSocketAccept, value: accept.to_string() },
        ],
    }
}

#[test]
fn accept_key_matches_rfc_sample() {
    assert_eq!(accept_key(b"dGhlIHNhbXBsZSBub25jZQ=="), "s3pPLMBiTxaQ9kYGzzhZRbK+xOo=");
}

#[test]
fn accept_key_matches_second_known_vector() {
    assert_eq!(accept_key(b"x3JJHMbDL1EzLkh9GBhXDw=="), "HSmrc0sMlYUkAGmm5OPpG2HaGWk=");
}

#[test]
fn accept_key_is_deterministic() {
    let key = b"AQIDBAUGBwgJCgsMDQ4PEC==";
    let first = accept_key(key);
    let second = accept_key(key);
    assert_eq!(first, second);
    assert_eq!(first.len(), 28);
}

#[test]
fn accept_key_of_empty_key_is_well_formed() {
    let r = accept_key(b"");
    assert_eq!(r.len(), 28);
    assert!(r.ends_with('='));
    assert_ne!(r, accept_key(b"dGhlIHNhbXBsZSBub25jZQ=="));
}

#[test]
fn header_names_compare_without_case() {
    assert!(names_equal(b"Sec-WebSocket-Key", b"sec-websocket-key"));
    assert!(names_equal(b"UPGRADE", b"upgrade"));
    assert!(!names_equal(b"upgrade", b"upgrades"));
    assert!(!names_equal(b"upgrade", b"upgrad3"));
    assert!(names_equal(b"", b""));
}

#[test]
fn missing_upgrade_header_is_rejected() {
    let req = request("GET", "/messages", vec![field("sec-websocket-key", "abc")]);
    let out = negotiate(&req);
    assert_eq!(
        out,
        HandshakeOutcome::Rejected { status: 400, reason: HandshakeError::MissingUpgradeHeader }
    );
}

#[test]
fn rejected_request_spawns_no_session() {
    let req = request("GET", "/messages", vec![field("host", "localhost")]);
    let (out, session) = upgrade_connection(&req, RouteHandler::Messages(MessageHandler()));
    assert_eq!(
        out,
        HandshakeOutcome::Rejected { status: 400, reason: HandshakeError::MissingUpgradeHeader }
    );
    assert!(session.is_none());
}

#[test]
fn missing_key_is_rejected() {
    let req = request("GET", "/messages", vec![field("upgrade", "websocket")]);
    assert_eq!(validate_headers(&req), Err(HandshakeError::MissingWebSocketKey));
    let (out, session) = upgrade_connection(&req, RouteHandler::Version(VersionHandler()));
    assert_eq!(
        out,
        HandshakeOutcome::Rejected { status: 400, reason: HandshakeError::MissingWebSocketKey }
    );
    assert!(session.is_none());
}

#[test]
fn keyed_upgrade_is_accepted() {
    let req = request(
        "GET",
        "/messages",
        vec![
            field("Host", "server.example.com"),
            field("Upgrade", "websocket"),
            field("Connection", "Upgrade"),
            field("Sec-WebSocket-Key", "dGhlIHNhbXBsZSBub25jZQ=="),
        ],
    );
    let (out, session) = upgrade_connection(&req, RouteHandler::Messages(MessageHandler()));
    assert_eq!(out, accepted("s3pPLMBiTxaQ9kYGzzhZRbK+xOo="));
    assert_eq!(
        session,
        Some(ConnectionSession {
            phase: SessionPhase::PendingUpgrade,
            handler: RouteHandler::Messages(MessageHandler()),
        })
    );
}

#[test]
fn validation_hands_back_the_first_key() {
    let req = request(
        "GET",
        "/version",
        vec![
            field("upgrade", "websocket"),
            field("sec-websocket-key", "first"),
            field("sec-websocket-key", "second"),
        ],
    );
    assert_eq!(validate_headers(&req), Ok(b"first".to_vec()));
}

#[test]
fn routes_select_handlers() {
    assert_eq!(route(b"GET", b"/messages"), Some(RouteHandler::Messages(MessageHandler())));
    assert_eq!(route(b"GET", b"/version"), Some(RouteHandler::Version(VersionHandler())));
    assert_eq!(route(b"POST", b"/messages"), None);
    assert_eq!(route(b"GET", b"/"), None);
    assert_eq!(route(b"get", b"/version"), None);
}

#[test]
fn other_paths_get_plain_response() {
    let req = request("GET", "/", vec![field("upgrade", "websocket")]);
    assert_eq!(
        server_kernel(&req),
        ServerReply::Plain { status: 200, body: "Hello Rust!".to_string() }
    );
}

#[test]
fn version_route_upgrades() {
    let req = request(
        "GET",
        "/version",
        vec![field("upgrade", "websocket"), field("sec-websocket-key", "x3JJHMbDL1EzLkh9GBhXDw==")],
    );
    assert_eq!(
        server_kernel(&req),
        ServerReply::Upgrade {
            outcome: accepted("HSmrc0sMlYUkAGmm5OPpG2HaGWk="),
            session: Some(ConnectionSession {
                phase: SessionPhase::PendingUpgrade,
                handler: RouteHandler::Version(VersionHandler()),
            }),
        }
    );
}

#[test]
fn upgrade_route_without_upgrade_header_gets_400() {
    let req = request("GET", "/messages", vec![]);
    assert_eq!(
        server_kernel(&req),
        ServerReply::Upgrade {
            outcome: HandshakeOutcome::Rejected {
                status: 400,
                reason: HandshakeError::MissingUpgradeHeader,
            },
            session: None,
        }
    );
}
