# bifrost (verified core)

Logic of a bridge that presents zigbee2mqtt devices and groups as Philips Hue
API resources, and talks to Home Assistant over its WebSocket API, written in
Verus with its contracts proved.

Layout:

- `src/devicedb.rs` — database of known products, looked up by model id.
- `src/convert.rs` — capabilities (dimming, colour, colour temperature,
  gradient) and product data read from zigbee2mqtt device descriptions.
- `src/bridge_import.rs` — importing lights, plugs, buttons and groups
  (rooms and scenes) into the resource store.
- `src/store.rs`, `src/resources.rs`, `src/ids.rs` — the resource store, the
  resource types, and the deterministic (UUID v5) resource identifiers.
- `src/ha_api.rs`, `src/ha_websocket.rs` — Home Assistant messages and the
  decisions of the authentication handshake.
- `src/laws.rs` — properties that span functions (re-importing a light,
  plug or button changes nothing, nor does re-importing a group unless the
  first import left scenes of its room that the group does not have;
  database lookup and key order, gradient bounds, rooms holding their
  members).
- `src/assoc.rs`, `src/text.rs`, `src/hue_api.rs`, `src/z2m_api.rs` — maps,
  string helpers and data models.
- `app/` — the clock reading that stamps an imported button's report, JSON
  encodings of the Home Assistant messages, the WebSocket connection, and
  floating-point light state conversions.
