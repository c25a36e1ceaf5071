//! Health-monitoring core of a gateway that relays server telemetry from an
//! MQTT broker to WebSocket dashboards: topic naming, threshold
//! classification, the alert state machine, the alert buffer, command
//! validation and configuration defaults.
pub mod domain;
pub mod validation;
pub mod alerts;
pub mod infrastructure;
pub mod system;
pub mod mqtt;
pub mod text;
pub mod websocket;
pub mod state;
pub mod device_health;
pub mod api;
