use bifrost::ha_api::{ClientMessage, Context, ServerMessage};
use bifrost::ha_websocket::{AuthError, AuthReply, HomeAssistantWebSocket};

fn conn() -> HomeAssistantWebSocket<()> {
    HomeAssistantWebSocket::new("ha".to_string(), ())
}

#[test]
fn new_connection_is_not_authenticated() {
    let ws = conn();
    assert_eq!(ws.name, "ha");
    assert!(!ws.authenticated());
}

#[test]
fn auth_request_carries_token() {
    let msg = HomeAssistantWebSocket::<()>::auth_request("abc".to_string());
    assert_eq!(msg, ClientMessage::Auth { access_token: "abc".to_string() });
}

#[test]
fn auth_ok_authenticates() {
    let mut ws = conn();
    let r = ws.handle_auth_reply(AuthReply::Message(ServerMessage::AuthOk {
        ha_version: Some("2024.1".to_string()),
    }));
    assert_eq!(r, Ok(()));
    assert!(ws.authenticated());
    // a later failed reply does not undo it
    let r = ws.handle_auth_reply(AuthReply::Closed);
    assert_eq!(r, Err(AuthError::UnexpectedEof));
    assert!(ws.authenticated());
}

#[test]
fn auth_invalid_fails() {
    let mut ws = conn();
    let r = ws.handle_auth_reply(AuthReply::Message(ServerMessage::AuthInvalid {
        message: Some("bad token".to_string()),
    }));
    assert_eq!(r, Err(AuthError::AuthenticateFailed));
    assert!(!ws.authenticated());
}

#[test]
fn other_messages_fail_authentication() {
    let mut ws = conn();
    for msg in [
        ServerMessage::AuthRequired { ha_version: None },
        ServerMessage::Ping { id: Some(1) },
        ServerMessage::Pong { id: None },
        ServerMessage::Unknown,
    ] {
        assert_eq!(ws.handle_auth_reply(AuthReply::Message(msg)), Err(AuthError::AuthenticateFailed));
    }
    assert!(!ws.authenticated());
}

#[test]
fn transport_outcomes() {
    let mut ws = conn();
    assert_eq!(ws.handle_auth_reply(AuthReply::Closed), Err(AuthError::UnexpectedEof));
    assert_eq!(ws.handle_auth_reply(AuthReply::TransportError), Err(AuthError::Transport));
    assert_eq!(ws.handle_auth_reply(AuthReply::NotText), Err(AuthError::UnexpectedReply));
    assert_eq!(ws.handle_auth_reply(AuthReply::Malformed), Err(AuthError::InvalidMessage));
    assert!(!ws.authenticated());
}

#[test]
fn context_fields() {
    let c = Context { id: "1".to_string(), parent_id: None, user_id: Some("u".to_string()) };
    let d = c.clone();
    assert_eq!(c, d);
}
