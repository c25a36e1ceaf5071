use vstd::prelude::*;

use crate::domain::metric::MetricName;

verus! {

/// A command for the server simulator. `probability` and `value` hold the
/// bit patterns of `f64` numbers.
#[derive(Clone, Debug)]
pub enum ServerCommand {
    SetFailureProbability { server_id: String, probability: u64 },
    SetMetric { server_id: String, metric: MetricName, value: u64 },
    ReleaseMetric { server_id: String, metric: MetricName },
    CreateServer { server_id: String, name: String },
    DeleteServer { server_id: String },
}

impl ServerCommand {
    /// The server the command is about.
    pub open spec fn target(&self) -> Seq<char> {
        match self {
            ServerCommand::SetFailureProbability { server_id, .. } => server_id@,
            ServerCommand::SetMetric { server_id, .. } => server_id@,
            ServerCommand::ReleaseMetric { server_id, .. } => server_id@,
            ServerCommand::CreateServer { server_id, .. } => server_id@,
            ServerCommand::DeleteServer { server_id } => server_id@,
        }
    }

    /// Commands that change the set of servers go to the fleet; the others
    /// go to the server they are about.
    pub open spec fn is_fleet_command(&self) -> bool {
        match self {
            ServerCommand::CreateServer { .. } | ServerCommand::DeleteServer { .. } => true,
            _ => false,
        }
    }

    /// The server the command is about.
    pub fn server_id(&self) -> (r: &str)
        ensures
            r@ == self.target(),
    {
        match self {
            ServerCommand::SetFailureProbability { server_id, .. } => server_id.as_str(),
            ServerCommand::SetMetric { server_id, .. } => server_id.as_str(),
            ServerCommand::ReleaseMetric { server_id, .. } => server_id.as_str(),
            ServerCommand::CreateServer { server_id, .. } => server_id.as_str(),
            ServerCommand::DeleteServer { server_id } => server_id.as_str(),
        }
    }

    /// Whether the command goes to the fleet topic.
    pub fn goes_to_fleet(&self) -> (r: bool)
        ensures
            r == self.is_fleet_command(),
            r <==> (self is CreateServer || self is DeleteServer),
    {
        match self {
            ServerCommand::CreateServer { .. } | ServerCommand::DeleteServer { .. } => true,
            _ => false,
        }
    }
}

} // verus!
