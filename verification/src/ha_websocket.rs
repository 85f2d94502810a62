//! The authentication handshake of a Home Assistant WebSocket connection.
//!
//! The connection itself (sending and receiving frames) is driven by the
//! caller; this module builds the request and decides on the reply.

use vstd::prelude::*;

use crate::ha_api::{ClientMessage, ServerMessage};

verus! {

/// What came back on the socket after the authentication request was sent.
#[derive(Debug)]
pub enum AuthReply {
    /// The stream ended.
    Closed,
    /// The transport reported an error.
    TransportError,
    /// A frame that is not a text frame.
    NotText,
    /// A text frame that is not a valid server message.
    Malformed,
    /// A server message.
    Message(ServerMessage),
}

/// Why authentication did not succeed.
#[derive(Debug, Clone, Copy, PartialEq, Eq, Structural)]
pub enum AuthError {
    /// The stream ended before a reply came.
    UnexpectedEof,
    /// The transport reported an error.
    Transport,
    /// The reply was not a text frame.
    UnexpectedReply,
    /// The reply was not a valid server message.
    InvalidMessage,
    /// The server refused the token, or answered with another message.
    AuthenticateFailed,
}

/// The outcome of the handshake for a given reply.
pub open spec fn spec_auth_outcome(reply: AuthReply) -> Result<(), AuthError> {
    match reply {
        AuthReply::Closed => Err(AuthError::UnexpectedEof),
        AuthReply::TransportError => Err(AuthError::Transport),
        AuthReply::NotText => Err(AuthError::UnexpectedReply),
        AuthReply::Malformed => Err(AuthError::InvalidMessage),
        AuthReply::Message(ServerMessage::AuthOk { .. }) => Ok(()),
        AuthReply::Message(_) => Err(AuthError::AuthenticateFailed),
    }
}

/// A named WebSocket connection to Home Assistant, over the socket `S`.
pub struct HomeAssistantWebSocket<S> {
    pub name: String,
    pub socket: S,
    authenticated: bool,
}

impl<S> HomeAssistantWebSocket<S> {
    /// Whether the server has accepted this connection's token.
    pub closed spec fn is_authenticated(&self) -> bool {
        self.authenticated
    }

    /// The connection's name.
    pub closed spec fn spec_name(&self) -> String {
        self.name
    }

    /// The connection's socket.
    pub closed spec fn spec_socket(&self) -> S {
        self.socket
    }

    /// A connection that has not authenticated yet.
    pub fn new(name: String, socket: S) -> (r: Self)
        ensures
            r.spec_name() == name,
            r.spec_socket() == socket,
            !r.is_authenticated(),
    {
        HomeAssistantWebSocket { name, socket, authenticated: false }
    }

    /// Whether the server has accepted this connection's token.
    pub fn authenticated(&self) -> (r: bool)
        ensures
            r == self.is_authenticated(),
    {
        self.authenticated
    }

    /// The message that authenticates with `token`.
    pub fn auth_request(token: String) -> (r: ClientMessage)
        ensures
            r == (ClientMessage::Auth { access_token: token }),
    {
        ClientMessage::Auth { access_token: token }
    }

    /// Decides on the reply to the authentication request: success exactly on
    /// `auth_ok`, which marks the connection authenticated.
    pub fn handle_auth_reply(&mut self, reply: AuthReply) -> (r: Result<(), AuthError>)
        ensures
            r == spec_auth_outcome(reply),
            final(self).is_authenticated() == (old(self).is_authenticated() || r is Ok),
            final(self).spec_name() == old(self).spec_name(),
            final(self).spec_socket() == old(self).spec_socket(),
    {
        match reply {
            AuthReply::Closed => Err(AuthError::UnexpectedEof),
            AuthReply::TransportError => Err(AuthError::Transport),
            AuthReply::NotText => Err(AuthError::UnexpectedReply),
            AuthReply::Malformed => Err(AuthError::InvalidMessage),
            AuthReply::Message(msg) => match msg {
                ServerMessage::AuthOk { .. } => {
                    self.authenticated = true;
                    Ok(())
                },
                _ => Err(AuthError::AuthenticateFailed),
            },
        }
    }
}

} // verus!
