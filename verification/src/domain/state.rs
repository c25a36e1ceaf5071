use vstd::prelude::*;

use crate::domain::health::{DeviceHealth, DeviceHealthView};
use crate::domain::status::HealthStatus;
use crate::domain::time::Timestamp;

verus! {

/// What the gateway knows of one server: its last report, its status and the
/// state of its alert.
#[derive(Clone, Debug)]
pub struct ServerState {
    pub server_id: String,
    pub name: String,
    pub health: DeviceHealth,
    pub status: HealthStatus,
    pub alert_active: bool,
    pub recovery_since: Option<Timestamp>,
    pub last_alert_at: Option<Timestamp>,
}

/// The mathematical value of a [`ServerState`].
pub struct ServerStateView {
    pub server_id: Seq<char>,
    pub name: Seq<char>,
    pub health: DeviceHealthView,
    pub status: HealthStatus,
    pub alert_active: bool,
    pub recovery_since: Option<Timestamp>,
    pub last_alert_at: Option<Timestamp>,
}

impl View for ServerState {
    type V = ServerStateView;

    open spec fn view(&self) -> ServerStateView {
        ServerStateView {
            server_id: self.server_id@,
            name: self.name@,
            health: self.health@,
            status: self.status,
            alert_active: self.alert_active,
            recovery_since: self.recovery_since,
            last_alert_at: self.last_alert_at,
        }
    }
}

impl ServerState {
    /// A state with the given id and name, no report yet, offline, and no
    /// alert.
    pub fn offline(server_id: String, name: String) -> (r: Self)
        ensures
            r@.server_id == server_id@,
            r@.name == name@,
            r@.health == DeviceHealth::empty_view(),
            r@.status == HealthStatus::Offline,
            !r@.alert_active,
            r@.recovery_since is None,
            r@.last_alert_at is None,
    {
        ServerState {
            server_id,
            name,
            health: DeviceHealth::empty(),
            status: HealthStatus::Offline,
            alert_active: false,
            recovery_since: None,
            last_alert_at: None,
        }
    }

    /// A copy of the state.
    pub fn duplicate(&self) -> (r: Self)
        ensures
            r@ == self@,
    {
        ServerState {
            server_id: self.server_id.clone(),
            name: self.name.clone(),
            health: self.health.duplicate(),
            status: self.status,
            alert_active: self.alert_active,
            recovery_since: self.recovery_since,
            last_alert_at: self.last_alert_at,
        }
    }
}

} // verus!
