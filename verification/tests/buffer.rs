use middle_mqtt::alerts::buffer::AlertBuffer;
use middle_mqtt::api::alerts::{select_alerts, AlertsQuery};
use middle_mqtt::domain::alert::{Alert, AlertMetric};
use middle_mqtt::domain::time::Timestamp;

fn alert(id: u128, server: &str) -> Alert {
    Alert {
        id,
        server_id: server.to_string(),
        server_name: format!("name-{}", server),
        timestamp: Timestamp { secs: id as i64, nanos: 0 },
        metric: AlertMetric::Cpu,
        value: Some(1),
        resolved_at: None,
    }
}

fn ids(v: &[Alert]) -> Vec<u128> {
    v.iter().map(|a| a.id).collect()
}

#[test]
fn push_keeps_newest_within_capacity() {
    let mut b = AlertBuffer::new(3);
    for i in 1..=5 {
        b.push(alert(i, "a"));
    }
    assert_eq!(b.len(), 3);
    assert_eq!(ids(&b.for_server(None)), vec![3, 4, 5]);
}

#[test]
fn capacity_zero_keeps_nothing() {
    let mut b = AlertBuffer::new(0);
    b.push(alert(1, "a"));
    assert_eq!(b.len(), 0);
}

#[test]
fn loaded_alerts_are_reordered_oldest_first() {
    let b = AlertBuffer::from_newest_first(vec![alert(3, "a"), alert(2, "b"), alert(1, "a")], 10);
    assert_eq!(ids(&b.for_server(None)), vec![1, 2, 3]);
    assert_eq!(ids(&b.for_server(Some("a"))), vec![1, 3]);
    assert_eq!(ids(&b.for_server(Some("c"))), Vec::<u128>::new());
}

#[test]
fn resolve_marks_only_open_alerts_of_server() {
    let mut b = AlertBuffer::new(10);
    b.push(alert(1, "a"));
    b.push(alert(2, "b"));
    b.push(alert(3, "a"));
    let t1 = Timestamp { secs: 100, nanos: 1 };
    b.resolve_server("a", t1);
    let t2 = Timestamp { secs: 200, nanos: 0 };
    b.resolve_server("a", t2);
    let all = b.for_server(None);
    assert_eq!(all[0].resolved_at, Some(t1));
    assert_eq!(all[1].resolved_at, None);
    assert_eq!(all[2].resolved_at, Some(t1));
    b.push(alert(4, "a"));
    b.resolve_server("a", t2);
    let all = b.for_server(None);
    assert_eq!(all[3].resolved_at, Some(t2));
    assert_eq!(all[0].resolved_at, Some(t1));
}

#[test]
fn query_filters_by_server() {
    let mut b = AlertBuffer::new(10);
    b.push(alert(1, "a"));
    b.push(alert(2, "b"));
    assert_eq!(ids(&select_alerts(&b, &AlertsQuery { server_id: None })), vec![1, 2]);
    assert_eq!(
        ids(&select_alerts(&b, &AlertsQuery { server_id: Some("b".to_string()) })),
        vec![2]
    );
}
