//! Bridge logic between zigbee2mqtt, Home Assistant and the Hue API model.

pub mod assoc;
pub mod bridge_import;
pub mod convert;
pub mod devicedb;
pub mod ha_api;
pub mod ha_websocket;
pub mod hue_api;
pub mod ids;
pub mod import_laws;
pub mod laws;
pub mod resources;
pub mod store;
pub mod text;
pub mod z2m_api;
