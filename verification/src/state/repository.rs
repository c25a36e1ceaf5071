use vstd::prelude::*;

use crate::domain::health::DeviceHealth;
use crate::domain::state::ServerState;
use crate::domain::status::HealthStatus;
use crate::text::{i64_to_decimal, int_decimal, parse_i64, parse_in_range};

verus! {

/// The state of a server read from the store (or just created there): its id
/// is the decimal text of its row id, it has no report yet, it is offline
/// and has no alert.
pub fn server_from_row(db_id: i64, name: String) -> (r: ServerState)
    ensures
        r@.server_id == int_decimal(db_id as int),
        r@.name == name@,
        r@.health == DeviceHealth::empty_view(),
        r@.status == HealthStatus::Offline,
        !r@.alert_active,
        r@.recovery_since is None,
        r@.last_alert_at is None,
{
    ServerState::offline(i64_to_decimal(db_id), name)
}

/// The row id a server id names, or the message the store's delete gives
/// when the id is not a decimal `i64`.
pub fn parse_server_db_id(server_id: &str) -> (r: Result<i64, String>)
    ensures
        match parse_in_range(server_id@, true, i64::MIN as int, i64::MAX as int) {
            Some(v) => r == Ok::<i64, String>(v as i64),
            None => r matches Err(e) && e@ == "El server_id debe ser un número válido"@,
        },
{
    match parse_i64(server_id) {
        Some(v) => Ok(v),
        None => Err("El server_id debe ser un número válido".to_owned()),
    }
}

} // verus!
