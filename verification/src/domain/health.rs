use vstd::prelude::*;

verus! {

/// Network throughput of a server; each field holds the bit pattern of an
/// `f32` reading.
#[derive(Clone, Copy, Debug, PartialEq, Eq, Structural)]
pub struct NetworkStats {
    pub in_value: u32,
    pub out_value: u32,
}

impl Default for NetworkStats {
    /// Both readings zero (`0.0f32` has the bit pattern 0).
    fn default() -> (r: Self)
        ensures
            r.in_value == 0,
            r.out_value == 0,
    {
        NetworkStats { in_value: 0, out_value: 0 }
    }
}

/// One telemetry report of a server.
///
/// `timestamp` is in whole seconds since the Unix epoch; `cpu`, `memory` and
/// `temp` hold the bit patterns of the `f32` readings.
#[derive(Clone, Debug)]
pub struct DeviceHealth {
    pub server_id: String,
    pub timestamp: i64,
    pub cpu: u32,
    pub memory: u32,
    pub temp: u32,
    pub network: NetworkStats,
    pub uptime: u64,
    pub status: String,
}

/// The mathematical value of a [`DeviceHealth`].
pub struct DeviceHealthView {
    pub server_id: Seq<char>,
    pub timestamp: i64,
    pub cpu: u32,
    pub memory: u32,
    pub temp: u32,
    pub network: NetworkStats,
    pub uptime: u64,
    pub status: Seq<char>,
}

impl View for DeviceHealth {
    type V = DeviceHealthView;

    open spec fn view(&self) -> DeviceHealthView {
        DeviceHealthView {
            server_id: self.server_id@,
            timestamp: self.timestamp,
            cpu: self.cpu,
            memory: self.memory,
            temp: self.temp,
            network: self.network,
            uptime: self.uptime,
            status: self.status@,
        }
    }
}

impl DeviceHealth {
    /// The view of the empty report: empty strings, zero readings, the Unix
    /// epoch.
    pub open spec fn empty_view() -> DeviceHealthView {
        DeviceHealthView {
            server_id: Seq::<char>::empty(),
            timestamp: 0,
            cpu: 0,
            memory: 0,
            temp: 0,
            network: NetworkStats { in_value: 0, out_value: 0 },
            uptime: 0,
            status: Seq::<char>::empty(),
        }
    }

    /// A report with every field empty or zero, stamped at the Unix epoch.
    pub fn empty() -> (r: Self)
        ensures
            r@ == Self::empty_view(),
    {
        DeviceHealth {
            server_id: String::new(),
            timestamp: 0,
            cpu: 0,
            memory: 0,
            temp: 0,
            network: NetworkStats::default(),
            uptime: 0,
            status: String::new(),
        }
    }

    /// A copy of the report.
    pub fn duplicate(&self) -> (r: Self)
        ensures
            r@ == self@,
    {
        DeviceHealth {
            server_id: self.server_id.clone(),
            timestamp: self.timestamp,
            cpu: self.cpu,
            memory: self.memory,
            temp: self.temp,
            network: self.network,
            uptime: self.uptime,
            status: self.status.clone(),
        }
    }
}

} // verus!
