use middle_mqtt::domain::command::ServerCommand;
use middle_mqtt::domain::metric::MetricName;
use middle_mqtt::websocket::dto::{command_from_payload, CommandPayload, CommandType};

fn payload(command: CommandType, metric: Option<MetricName>, value: Option<f64>) -> CommandPayload {
    CommandPayload {
        server_id: "9".to_string(),
        command,
        metric,
        value: value.map(f64::to_bits),
    }
}

#[test]
fn failure_probability_needs_value() {
    match command_from_payload(payload(CommandType::SetFailureProbability, None, Some(0.25))) {
        Ok(ServerCommand::SetFailureProbability { server_id, probability }) => {
            assert_eq!(server_id, "9");
            assert_eq!(f64::from_bits(probability), 0.25);
        }
        _ => panic!("expected SetFailureProbability"),
    }
    assert_eq!(
        command_from_payload(payload(CommandType::SetFailureProbability, None, None)).unwrap_err(),
        "El comando SetFailureProbability requiere el campo 'value'"
    );
}

#[test]
fn set_metric_needs_metric_then_value() {
    match command_from_payload(payload(CommandType::SetMetric, Some(MetricName::Memory), Some(50.0))) {
        Ok(ServerCommand::SetMetric { server_id, metric, value }) => {
            assert_eq!(server_id, "9");
            assert_eq!(metric, MetricName::Memory);
            assert_eq!(f64::from_bits(value), 50.0);
        }
        _ => panic!("expected SetMetric"),
    }
    assert_eq!(
        command_from_payload(payload(CommandType::SetMetric, None, None)).unwrap_err(),
        "El comando SetMetric requiere el campo 'metric'"
    );
    assert_eq!(
        command_from_payload(payload(CommandType::SetMetric, Some(MetricName::Cpu), None)).unwrap_err(),
        "El comando SetMetric requiere el campo 'value'"
    );
}

#[test]
fn release_metric_needs_metric() {
    match command_from_payload(payload(CommandType::ReleaseMetric, Some(MetricName::Temp), None)) {
        Ok(ServerCommand::ReleaseMetric { server_id, metric }) => {
            assert_eq!(server_id, "9");
            assert_eq!(metric, MetricName::Temp);
        }
        _ => panic!("expected ReleaseMetric"),
    }
    assert_eq!(
        command_from_payload(payload(CommandType::ReleaseMetric, None, Some(1.0))).unwrap_err(),
        "El comando ReleaseMetric requiere el campo 'metric'"
    );
}
