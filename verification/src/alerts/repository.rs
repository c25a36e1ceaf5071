use vstd::prelude::*;

use crate::domain::alert::{Alert, AlertMetric};
use crate::domain::time::Timestamp;
use crate::system::{
    chrono_accepts_timestamp, parse_uuid, random_alert_id, timestamp_in_range, uuid_from_text,
};

verus! {

/// One stored alert as the store returns it: the id as text, the metric as
/// decoded from its stored text (`None` when it did not decode), the value's
/// `f32` bit pattern and the times in seconds since the Unix epoch.
#[derive(Clone, Debug)]
pub struct AlertRow {
    pub id: String,
    pub server_id: String,
    pub server_name: String,
    pub metric: Option<AlertMetric>,
    pub value: Option<u32>,
    pub timestamp: i64,
    pub resolved_at: Option<i64>,
}

/// The instant at second `secs` when the date library accepts it (`valid`),
/// the Unix epoch otherwise.
pub open spec fn stored_time(secs: i64, valid: bool) -> Timestamp {
    if valid {
        Timestamp { secs, nanos: 0 }
    } else {
        Timestamp { secs: 0, nanos: 0 }
    }
}

/// Builds the alert of a stored row once its id text has been read
/// (`parsed_id`) and its times checked (`timestamp_valid`,
/// `resolved_valid`): an unreadable id is replaced by `fresh_id`, an
/// undecodable metric by `Offline`, an unrepresentable creation time by the
/// Unix epoch, and an unrepresentable resolution time by none.
pub fn assemble_alert(
    row: AlertRow,
    parsed_id: Option<u128>,
    fresh_id: u128,
    timestamp_valid: bool,
    resolved_valid: bool,
) -> (r: Alert)
    ensures
        r.id == match parsed_id {
            Some(v) => v,
            None => fresh_id,
        },
        r.server_id == row.server_id,
        r.server_name == row.server_name,
        r.metric == match row.metric {
            Some(m) => m,
            None => AlertMetric::Offline,
        },
        r.value == row.value,
        r.timestamp == stored_time(row.timestamp, timestamp_valid),
        r.resolved_at == match row.resolved_at {
            Some(secs) => if resolved_valid {
                Some(Timestamp { secs, nanos: 0 })
            } else {
                None::<Timestamp>
            },
            None => None,
        },
{
    let id = match parsed_id {
        Some(v) => v,
        None => fresh_id,
    };
    let metric = match row.metric {
        Some(m) => m,
        None => AlertMetric::Offline,
    };
    let timestamp = if timestamp_valid {
        Timestamp { secs: row.timestamp, nanos: 0 }
    } else {
        Timestamp { secs: 0, nanos: 0 }
    };
    let resolved_at = match row.resolved_at {
        Some(secs) => if resolved_valid {
            Some(Timestamp { secs, nanos: 0 })
        } else {
            None
        },
        None => None,
    };
    Alert {
        id,
        server_id: row.server_id,
        server_name: row.server_name,
        timestamp,
        metric,
        value: row.value,
        resolved_at,
    }
}

/// Turns a stored row into an alert: the id is read as a UUID (a fresh random
/// one replaces an unreadable id) and the times are checked against the
/// range of the date library.
pub fn alert_from_row(row: AlertRow) -> (r: Alert)
    ensures
        uuid_from_text(row.id@) matches Some(v) ==> r.id == v,
        r.server_id == row.server_id,
        r.server_name == row.server_name,
        r.metric == match row.metric {
            Some(m) => m,
            None => AlertMetric::Offline,
        },
        r.value == row.value,
        r.timestamp == stored_time(row.timestamp, chrono_accepts_timestamp(row.timestamp)),
        r.resolved_at == match row.resolved_at {
            Some(secs) => if chrono_accepts_timestamp(secs) {
                Some(Timestamp { secs, nanos: 0 })
            } else {
                None::<Timestamp>
            },
            None => None,
        },
{
    let parsed_id = parse_uuid(row.id.as_str());
    let fresh_id = match parsed_id {
        Some(_) => 0,
        None => random_alert_id(),
    };
    let timestamp_valid = timestamp_in_range(row.timestamp);
    let resolved_valid = match row.resolved_at {
        Some(secs) => timestamp_in_range(secs),
        None => false,
    };
    assemble_alert(row, parsed_id, fresh_id, timestamp_valid, resolved_valid)
}

} // verus!
