use vstd::prelude::*;

use crate::domain::state::ServerState;
use crate::domain::status::HealthStatus;
use crate::state::offline_checker::{goes_offline, is_stale};

verus! {

/// One step of the alert-free offline sweep for one server at `now`
/// (seconds since the Unix epoch): a server that has gone offline is marked
/// so and `true` is returned; any other server is left as it was.
pub fn mark_offline(state: &mut ServerState, now: i64) -> (r: bool)
    ensures
        r == goes_offline(old(state)@, now),
        r ==> final(state).status == HealthStatus::Offline,
        r ==> final(state)@ == (crate::domain::state::ServerStateView {
            status: HealthStatus::Offline,
            ..old(state)@
        }),
        !r ==> final(state)@ == old(state)@,
{
    if is_stale(state, now) {
        state.status = HealthStatus::Offline;
        true
    } else {
        false
    }
}

} // verus!
