//! Messages of the Home Assistant WebSocket API.
//!
//! These mirror the JSON messages described at
//! https://developers.home-assistant.io/docs/api/websocket ; free-form JSON
//! payloads are carried as `serde_json::Value`.

use vstd::prelude::*;

verus! {

/// A free-form JSON value, carried through unread.
#[verifier::external_type_specification]
#[verifier::external_body]
pub struct ExJsonValue(serde_json::Value);

/// Error object included in `result` messages when `success` is false.
#[derive(Debug, PartialEq)]
pub struct ErrorInfo {
    pub code: String,
    pub message: String,
    pub translation_key: Option<String>,
    pub translation_domain: Option<String>,
    pub translation_placeholders: Option<serde_json::Value>,
}

/// Context object included in events and some results.
#[derive(Debug, Clone, PartialEq)]
pub struct Context {
    pub id: String,
    pub parent_id: Option<String>,
    pub user_id: Option<String>,
}

/// Event payload as sent by Home Assistant in `event` messages.
#[derive(Debug, PartialEq)]
pub struct Event {
    pub data: serde_json::Value,
    pub event_type: String,
    pub time_fired: Option<String>,
    pub origin: Option<String>,
    pub context: Option<Context>,
}

/// Messages sent from server to client.
#[allow(inconsistent_fields)]
#[derive(Debug, PartialEq)]
pub enum ServerMessage {
    /// Sent when authentication is required.
    AuthRequired { ha_version: Option<String> },
    /// Sent when authentication succeeded.
    AuthOk { ha_version: Option<String> },
    /// Sent when authentication failed.
    AuthInvalid { message: Option<String> },
    /// Generic result for command responses.
    Result {
        id: i64,
        success: bool,
        result: Option<serde_json::Value>,
        error: Option<ErrorInfo>,
    },
    /// An event emitted by the event bus.
    Event { id: Option<i64>, event: Event },
    /// Ping message used for heartbeats.
    Ping { id: Option<i64> },
    /// Pong message used for heartbeats.
    Pong { id: Option<i64> },
    /// Any message type not modelled explicitly.
    Unknown,
}

/// Messages sent from client to server.
#[allow(inconsistent_fields)]
#[derive(Debug, PartialEq)]
pub enum ClientMessage {
    /// Authenticate with an access token.
    Auth { access_token: String },
    /// Subscribe to events.
    SubscribeEvents { id: i64, event_type: Option<String> },
    /// Unsubscribe from events, referencing the original subscription id.
    UnsubscribeEvents { id: i64, subscription: i64 },
    /// Call a service.
    CallService {
        id: i64,
        domain: String,
        service: String,
        service_data: Option<serde_json::Value>,
        target: Option<serde_json::Value>,
        return_response: Option<bool>,
    },
    /// Fire a raw event on the event bus.
    FireEvent { id: i64, event_type: String, event_data: Option<serde_json::Value> },
    /// Fetch current states.
    GetStates { id: i64 },
    /// Fetch current config.
    GetConfig { id: i64 },
    /// Fetch available services.
    GetServices { id: i64 },
    /// Fetch registered panels.
    GetPanels { id: i64 },
    /// Ping.
    Ping { id: i64 },
    /// Pong.
    Pong { id: i64 },
    /// Validate config.
    ValidateConfig {
        id: i64,
        trigger: Option<serde_json::Value>,
        condition: Option<serde_json::Value>,
        action: Option<serde_json::Value>,
    },
    /// Extract from target.
    ExtractFromTarget { id: i64, target: serde_json::Value, expand_group: Option<bool> },
    /// Subscribe to a trigger.
    SubscribeTrigger { id: i64, trigger: serde_json::Value },
    /// Announce supported features.
    SupportedFeatures { id: i64, features: serde_json::Value },
    /// Any message type not handled.
    Unknown,
}

} // verus!
