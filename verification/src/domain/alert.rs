use vstd::prelude::*;

use crate::domain::time::Timestamp;

verus! {

/// The metric an alert was raised for.
#[derive(Clone, Copy, Debug, PartialEq, Eq, Structural)]
pub enum AlertMetric {
    Cpu,
    Temp,
    Memory,
    Network,
    Offline,
}

/// An alert raised for one server.
///
/// `id` holds the 128 bits of the alert's UUID; `value`, when present, holds
/// the bit pattern of the `f32` reading that crossed its critical threshold.
#[derive(Clone, Debug)]
pub struct Alert {
    pub id: u128,
    pub server_id: String,
    pub server_name: String,
    pub timestamp: Timestamp,
    pub metric: AlertMetric,
    pub value: Option<u32>,
    pub resolved_at: Option<Timestamp>,
}

/// The mathematical value of an [`Alert`]: its strings as character sequences.
pub struct AlertView {
    pub id: u128,
    pub server_id: Seq<char>,
    pub server_name: Seq<char>,
    pub timestamp: Timestamp,
    pub metric: AlertMetric,
    pub value: Option<u32>,
    pub resolved_at: Option<Timestamp>,
}

impl View for Alert {
    type V = AlertView;

    open spec fn view(&self) -> AlertView {
        AlertView {
            id: self.id,
            server_id: self.server_id@,
            server_name: self.server_name@,
            timestamp: self.timestamp,
            metric: self.metric,
            value: self.value,
            resolved_at: self.resolved_at,
        }
    }
}

impl Alert {
    /// A copy of the alert.
    pub fn duplicate(&self) -> (r: Alert)
        ensures
            r@ == self@,
    {
        Alert {
            id: self.id,
            server_id: self.server_id.clone(),
            server_name: self.server_name.clone(),
            timestamp: self.timestamp,
            metric: self.metric,
            value: self.value,
            resolved_at: self.resolved_at,
        }
    }
}

/// The views of a sequence of alerts.
pub open spec fn alert_views(alerts: Seq<Alert>) -> Seq<AlertView> {
    alerts.map_values(|a: Alert| a@)
}

} // verus!
