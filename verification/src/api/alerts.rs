use vstd::prelude::*;

use crate::alerts::buffer::{filter_server, of_server, AlertBuffer};
use crate::domain::alert::{alert_views, Alert};

verus! {

/// The query of the alert listing: an optional server to restrict it to.
#[derive(Clone, Debug)]
pub struct AlertsQuery {
    pub server_id: Option<String>,
}

/// The alerts the listing answers with: those of the queried server, or all
/// of them, oldest first.
pub fn select_alerts(buffer: &AlertBuffer, query: &AlertsQuery) -> (r: Vec<Alert>)
    ensures
        alert_views(r@) == filter_server(
            buffer.contents(),
            match query.server_id {
                Some(id) => Some(id@),
                None => None,
            },
        ),
        forall|i: int|
            #![trigger r@[i]]
            0 <= i < r@.len() ==> (query.server_id matches Some(id) ==> r@[i].server_id@ == id@),
        query.server_id matches Some(id) ==> alert_views(r@) == buffer.contents().filter(
            of_server(id@),
        ),
        query.server_id is None ==> alert_views(r@) == buffer.contents(),
{
    match &query.server_id {
        Some(id) => buffer.for_server(Some(id.as_str())),
        None => buffer.for_server(None),
    }
}

} // verus!
