use vstd::prelude::*;

use crate::domain::command::ServerCommand;
use crate::domain::metric::MetricName;
use crate::domain::state::ServerState;
use crate::domain::status::HealthStatus;

verus! {

/// The kinds of command a dashboard may send.
#[derive(Clone, Copy, Debug, PartialEq, Eq, Structural)]
pub enum CommandType {
    SetFailureProbability,
    SetMetric,
    ReleaseMetric,
}

/// A command as a dashboard sends it; `value` holds the bit pattern of an
/// `f64`.
#[derive(Clone, Debug)]
pub struct CommandPayload {
    pub server_id: String,
    pub command: CommandType,
    pub metric: Option<MetricName>,
    pub value: Option<u64>,
}

/// Turns a dashboard command into a simulator command, failing with a message
/// when a field the command needs is missing: `value` for
/// `SetFailureProbability`, `metric` then `value` for `SetMetric`, `metric`
/// for `ReleaseMetric`.
pub fn command_from_payload(dto: CommandPayload) -> (r: Result<ServerCommand, String>)
    ensures
        match dto.command {
            CommandType::SetFailureProbability => match dto.value {
                Some(v) => r == Ok::<ServerCommand, String>(
                    ServerCommand::SetFailureProbability { server_id: dto.server_id, probability: v },
                ),
                None => r matches Err(e) && e@
                    == "El comando SetFailureProbability requiere el campo 'value'"@,
            },
            CommandType::SetMetric => match (dto.metric, dto.value) {
                (Some(m), Some(v)) => r == Ok::<ServerCommand, String>(
                    ServerCommand::SetMetric { server_id: dto.server_id, metric: m, value: v },
                ),
                (None, _) => r matches Err(e) && e@
                    == "El comando SetMetric requiere el campo 'metric'"@,
                (Some(_), None) => r matches Err(e) && e@
                    == "El comando SetMetric requiere el campo 'value'"@,
            },
            CommandType::ReleaseMetric => match dto.metric {
                Some(m) => r == Ok::<ServerCommand, String>(
                    ServerCommand::ReleaseMetric { server_id: dto.server_id, metric: m },
                ),
                None => r matches Err(e) && e@
                    == "El comando ReleaseMetric requiere el campo 'metric'"@,
            },
        },
{
    match dto.command {
        CommandType::SetFailureProbability => {
            let probability = match dto.value {
                Some(v) => v,
                None => {
                    return Err(
                        "El comando SetFailureProbability requiere el campo 'value'".to_owned(),
                    )
                },
            };
            Ok(ServerCommand::SetFailureProbability { server_id: dto.server_id, probability })
        },
        CommandType::SetMetric => {
            let metric = match dto.metric {
                Some(m) => m,
                None => {
                    return Err("El comando SetMetric requiere el campo 'metric'".to_owned())
                },
            };
            let value = match dto.value {
                Some(v) => v,
                None => {
                    return Err("El comando SetMetric requiere el campo 'value'".to_owned())
                },
            };
            Ok(ServerCommand::SetMetric { server_id: dto.server_id, metric, value })
        },
        CommandType::ReleaseMetric => {
            let metric = match dto.metric {
                Some(m) => m,
                None => {
                    return Err("El comando ReleaseMetric requiere el campo 'metric'".to_owned())
                },
            };
            Ok(ServerCommand::ReleaseMetric { server_id: dto.server_id, metric })
        },
    }
}

/// What the dashboards are told of one server. The readings hold `f32` bit
/// patterns; the thresholds shown beside them are added where the message
/// is encoded.
#[derive(Clone, Debug)]
pub struct WsServerUpdate {
    pub server_id: String,
    pub name: String,
    pub timestamp: i64,
    pub cpu: u32,
    pub memory: u32,
    pub temp: u32,
    pub network_in: u32,
    pub network_out: u32,
    pub uptime: u64,
    pub status: HealthStatus,
}

impl WsServerUpdate {
    /// The update that describes `state`.
    pub fn from_state(state: &ServerState) -> (r: Self)
        ensures
            r.server_id@ == state.server_id@,
            r.name@ == state.name@,
            r.timestamp == state.health.timestamp,
            r.cpu == state.health.cpu,
            r.memory == state.health.memory,
            r.temp == state.health.temp,
            r.network_in == state.health.network.in_value,
            r.network_out == state.health.network.out_value,
            r.uptime == state.health.uptime,
            r.status == state.status,
    {
        WsServerUpdate {
            server_id: state.server_id.clone(),
            name: state.name.clone(),
            timestamp: state.health.timestamp,
            cpu: state.health.cpu,
            memory: state.health.memory,
            temp: state.health.temp,
            network_in: state.health.network.in_value,
            network_out: state.health.network.out_value,
            uptime: state.health.uptime,
            status: state.status,
        }
    }
}

} // verus!
