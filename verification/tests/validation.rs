use middle_mqtt::domain::status::HealthStatus;
use middle_mqtt::validation::engine::{determine_status, MetricFlags, ThresholdChecks};
use middle_mqtt::device_health::{DeviceHealth as LegacyHealth, NetworkStats as LegacyNetwork};
use middle_mqtt::validation::{apply_health_validation, is_device_unhealthy, is_network_congested, OverloadChecks};

fn flags(cpu: bool, memory: bool, temp: bool) -> MetricFlags {
    MetricFlags { cpu, memory, temp }
}

#[test]
fn status_by_threshold_checks() {
    let none = flags(false, false, false);
    assert_eq!(
        determine_status(&ThresholdChecks { warning: none, critical: none }),
        HealthStatus::Healthy
    );
    assert_eq!(
        determine_status(&ThresholdChecks { warning: flags(false, true, false), critical: none }),
        HealthStatus::Warning
    );
    assert_eq!(
        determine_status(&ThresholdChecks { warning: flags(true, false, false), critical: flags(false, false, true) }),
        HealthStatus::Critical
    );
    // a critical reading alone is critical even without warning flags
    assert_eq!(
        determine_status(&ThresholdChecks { warning: none, critical: flags(true, false, false) }),
        HealthStatus::Critical
    );
}

#[test]
fn default_status_is_offline() {
    assert_eq!(HealthStatus::default(), HealthStatus::Offline);
}

#[test]
fn device_unhealthy_when_any_limit_exceeded() {
    let ok = OverloadChecks {
        cpu_overloaded: false,
        memory_overloaded: false,
        temperature_critical: false,
        network_in_over: false,
        network_out_over: false,
    };
    assert!(!is_device_unhealthy(&ok));
    assert!(!is_network_congested(&ok));
    assert!(is_device_unhealthy(&OverloadChecks { cpu_overloaded: true, ..ok }));
    assert!(is_device_unhealthy(&OverloadChecks { memory_overloaded: true, ..ok }));
    assert!(is_device_unhealthy(&OverloadChecks { temperature_critical: true, ..ok }));
    let out = OverloadChecks { network_out_over: true, ..ok };
    assert!(is_network_congested(&out));
    assert!(is_device_unhealthy(&out));
    assert!(is_network_congested(&OverloadChecks { network_in_over: true, ..ok }));
}

#[test]
fn readme_report_is_healthy_then_unhealthy() {
    let mut h = LegacyHealth {
        timestamp: "2025-01-01T00:00:00Z".to_string(),
        cpu: 45.2f32.to_bits(),
        temp: 68.1f32.to_bits(),
        memory: 72.0f32.to_bits(),
        network: LegacyNetwork { in_value: 56.3f32.to_bits(), out_value: 42.7f32.to_bits() },
        uptime: 123456,
        status: "whatever".to_string(),
    };
    let ok = OverloadChecks {
        cpu_overloaded: false,
        memory_overloaded: false,
        temperature_critical: false,
        network_in_over: false,
        network_out_over: false,
    };
    apply_health_validation(&mut h, &ok);
    assert_eq!(h.status, "healthy");
    apply_health_validation(&mut h, &OverloadChecks { network_in_over: true, ..ok });
    assert_eq!(h.status, "unhealthy");
    assert_eq!(h.cpu, 45.2f32.to_bits());
}
