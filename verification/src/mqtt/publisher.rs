use vstd::prelude::*;

use crate::domain::command::ServerCommand;
use crate::mqtt::topics::{control_topic_of, Topics};

verus! {

/// The topic a command is published on: the fleet topic for commands that
/// create or delete servers, the server's control topic for the others.
pub fn command_topic(topics: &Topics, cmd: &ServerCommand) -> (r: String)
    ensures
        r@ == if cmd.is_fleet_command() {
            topics.prefix@ + "/simulator/fleet"@
        } else {
            control_topic_of(topics.prefix@, cmd.target())
        },
        match cmd {
            ServerCommand::SetFailureProbability { server_id, .. } => r@ == topics.prefix@
                + "/simulator/control/"@ + server_id@,
            ServerCommand::SetMetric { server_id, .. } => r@ == topics.prefix@
                + "/simulator/control/"@ + server_id@,
            ServerCommand::ReleaseMetric { server_id, .. } => r@ == topics.prefix@
                + "/simulator/control/"@ + server_id@,
            ServerCommand::CreateServer { .. } => r@ == topics.prefix@ + "/simulator/fleet"@,
            ServerCommand::DeleteServer { .. } => r@ == topics.prefix@ + "/simulator/fleet"@,
        },
{
    if cmd.goes_to_fleet() {
        topics.fleet_topic()
    } else {
        topics.control_topic(cmd.server_id())
    }
}

/// Routing law: exactly the commands that create or delete a server go to the
/// fleet; every other command goes to the control topic of the server it
/// names.
pub proof fn lemma_command_routing(cmd: ServerCommand)
    ensures
        cmd.is_fleet_command() <==> (cmd is CreateServer || cmd is DeleteServer),
        cmd is SetFailureProbability ==> !cmd.is_fleet_command() && cmd.target()
            == cmd->SetFailureProbability_server_id@,
        cmd is SetMetric ==> !cmd.is_fleet_command() && cmd.target() == cmd->SetMetric_server_id@,
        cmd is ReleaseMetric ==> !cmd.is_fleet_command() && cmd.target()
            == cmd->ReleaseMetric_server_id@,
{
}

} // verus!
