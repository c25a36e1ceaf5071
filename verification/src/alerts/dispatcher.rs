use vstd::prelude::*;

use crate::alerts::engine::AlertDecision;
use crate::domain::alert::{alert_views, Alert, AlertView};

verus! {

/// What the alert dispatcher is told.
#[derive(Clone, Debug)]
pub enum AlertEvent {
    New(Alert),
    Recovery { server_id: String, server_name: String },
}

/// The mathematical value of an [`AlertEvent`].
pub enum AlertEventView {
    New(AlertView),
    Recovery { server_id: Seq<char>, server_name: Seq<char> },
}

impl View for AlertEvent {
    type V = AlertEventView;

    open spec fn view(&self) -> AlertEventView {
        match self {
            AlertEvent::New(a) => AlertEventView::New(a@),
            AlertEvent::Recovery { server_id, server_name } => AlertEventView::Recovery {
                server_id: server_id@,
                server_name: server_name@,
            },
        }
    }
}

/// The events a decision produces: one per new alert, in order, then a
/// recovery event for the server when its alert was resolved.
pub open spec fn events_of(
    alerts: Seq<AlertView>,
    recovered: bool,
    server_id: Seq<char>,
    server_name: Seq<char>,
) -> Seq<AlertEventView> {
    alerts.map_values(|a: AlertView| AlertEventView::New(a)) + if recovered {
        seq![AlertEventView::Recovery { server_id, server_name }]
    } else {
        Seq::empty()
    }
}

/// The events to hand to the dispatcher for a decision about one server.
pub fn alert_events(decision: AlertDecision, server_id: &str, server_name: &str) -> (r: Vec<
    AlertEvent,
>)
    ensures
        r@.map_values(|e: AlertEvent| e@) == events_of(
            decision@.alerts,
            decision.recovered,
            server_id@,
            server_name@,
        ),
{
    let ghost views = decision@.alerts;
    let recovered = decision.recovered;
    let n = decision.alerts.len();
    let mut events: Vec<AlertEvent> = Vec::new();
    for i in 0..n
        invariant
            n == views.len(),
            views == alert_views(decision.alerts@),
            events@.len() == i,
            forall|j: int| 0 <= j < i ==> #[trigger] events@[j]@ == AlertEventView::New(views[j]),
    {
        events.push(AlertEvent::New(decision.alerts[i].duplicate()));
    }
    if recovered {
        events.push(
            AlertEvent::Recovery {
                server_id: server_id.to_owned(),
                server_name: server_name.to_owned(),
            },
        );
    }
    assert(events@.map_values(|e: AlertEvent| e@) =~= events_of(
        views,
        recovered,
        server_id@,
        server_name@,
    ));
    events
}

} // verus!
