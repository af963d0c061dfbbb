use nep_gw::config::{parse_u16, port_from, AppConfig, DEFAULT_HTTP_PORT, DEFAULT_MQTT_PORT};
use nep_gw::metrics::{register_metrics, relay_outcome_metric, GatewayMetrics, MetricId, MetricsError, METRIC_COUNT};
use nep_gw::mqtt::{device_info, discovery_config, discovery_configs, telemetry_topic, HaSensor, MqttWorker, TelemetryKey, SENSOR_COUNT, TELEMETRY_KEY_COUNT};
use nep_gw::telemetry::parse_payload;
use nep_gw::text::{hex8, push_decimal};

const BDM400: &str = "7926004014ffffffffffffffff1c00c3c3c3c3785634120000755752172010002bfe31cf145c1a0684bb2e395f";

#[test]
fn metrics_register_once() {
    let mut metrics = GatewayMetrics::new().unwrap();
    assert!(!metrics.registered());
    register_metrics(&mut metrics);
    assert!(metrics.registered());
    let names: Vec<String> = metrics
        .registry()
        .gather()
        .iter()
        .map(|f| f.get_name().to_string())
        .collect();
    assert_eq!(names.len(), METRIC_COUNT);
    for i in 0..METRIC_COUNT {
        assert!(names.iter().any(|n| n == MetricId::at(i).name()), "{}", MetricId::at(i).name());
    }
    for documented in [
        "nep_packets_received_total",
        "nep_ac_power_watts",
        "nep_ac_voltage_volts",
        "nep_dc_current_amperes",
        "nep_ac_frequency_hertz",
        "nep_dc_voltage_volts",
        "nep_temperature_celsius",
        "nep_daily_energy_watthours",
        "nep_reactive_power_var",
    ] {
        assert!(names.iter().any(|n| n == documented), "{}", documented);
    }
}

#[test]
fn metrics_expose_counters_and_gauges() {
    let mut metrics = GatewayMetrics::new().unwrap();
    register_metrics(&mut metrics);
    assert!(metrics.counter(MetricId::PacketsReceived).is_some());
    assert!(metrics.gauge(MetricId::PacketsReceived).is_none());
    assert!(metrics.gauge(MetricId::AcPower).is_some());
    assert!(metrics.counter(MetricId::AcPower).is_none());
    metrics.counter(MetricId::PacketsReceived).unwrap().inner.inc();
    metrics.gauge(MetricId::AcPower).unwrap().inner.set(223.89);
    metrics.gauge(MetricId::AcVoltage).unwrap().inner.set(233.2);
    let families = metrics.registry().gather();
    let metric = |name: &str| families.iter().find(|f| f.get_name() == name).unwrap().get_metric()[0].clone();
    assert_eq!(metric("nep_packets_received_total").get_counter().get_value(), 1.0);
    assert_eq!(metric("nep_ac_power_watts").get_gauge().get_value(), 223.89);
    assert_eq!(metric("nep_ac_voltage_volts").get_gauge().get_value(), 233.2);
    assert_eq!(metric("nep_temperature_celsius").get_gauge().get_value(), 0.0);
}

#[test]
fn metrics_of_two_gateways_are_independent() {
    let mut a = GatewayMetrics::new().unwrap();
    let b = GatewayMetrics::new().unwrap();
    register_metrics(&mut a);
    assert!(a.registered());
    assert!(!b.registered());
    assert_eq!(b.registry().gather().len(), 0);
    assert!(!matches!(GatewayMetrics::new(), Err(MetricsError::DuplicateDescriptor { .. })));
}

#[test]
fn metric_order_and_names() {
    assert_eq!(MetricId::at(0), MetricId::PacketsReceived);
    assert_eq!(MetricId::at(12), MetricId::ReactivePower);
    assert_eq!(MetricId::DailyEnergy.index(), 11);
    assert_eq!(MetricId::DcCurrentCh2.name(), "nep_inverter_dc_current_ch2_amperes");
    assert_eq!(MetricId::AcFreq.name(), "nep_ac_frequency_hertz");
    assert!(MetricId::UpstreamForwardErrors.is_counter());
    assert!(!MetricId::Temperature.is_counter());
}

#[test]
fn serial_renders_as_eight_hex_digits() {
    assert_eq!(hex8(0x12345678), "12345678");
    assert_eq!(hex8(0xdeadbeef), "deadbeef");
    assert_eq!(hex8(0xab), "000000ab");
    assert_eq!(hex8(0), "00000000");
}

#[test]
fn decimal_rendering() {
    let mut s = String::from("n=");
    push_decimal(&mut s, 0);
    push_decimal(&mut s, 1234567890123);
    assert_eq!(s, "n=01234567890123");
}

#[test]
fn telemetry_topic_of_serial() {
    assert_eq!(telemetry_topic("deadbeef"), "nep/telemetry/deadbeef");
}

#[test]
fn discovery_config_of_daily_energy() {
    let c = discovery_config("12345678", HaSensor::DailyEnergy);
    assert_eq!(c.topic, "homeassistant/sensor/nep_12345678/daily_energy/config");
    assert_eq!(c.name, "NEP 12345678 Daily Energy");
    assert_eq!(c.state_topic, "nep/telemetry/12345678");
    assert_eq!(c.value_template, "{{ value_json.daily_energy_wh }}");
    assert_eq!(c.unique_id, "nep_12345678_daily_energy");
    assert_eq!(c.device_class, Some("energy"));
    assert_eq!(c.unit_of_measurement, Some("Wh"));
    assert_eq!(c.state_class, Some("total_increasing"));
    assert!(c.options.is_empty());
    assert_eq!(c.device.identifier, "nep_bdm_12345678");
    assert_eq!(c.device.name, "NEP BDM-400 (12345678)");
    assert_eq!(c.device.model, "BDM-400");
    assert_eq!(c.device.manufacturer, "Northern Electric Power (NEP)");
}

#[test]
fn discovery_config_of_efficiency_and_enums() {
    let e = discovery_config("1", HaSensor::Efficiency);
    assert_eq!(e.device_class, None);
    assert_eq!(e.unit_of_measurement, Some("%"));
    assert_eq!(e.state_class, None);

    let s = discovery_config("1", HaSensor::ErrorState);
    assert_eq!(s.device_class, Some("enum"));
    assert_eq!(s.unit_of_measurement, None);
    assert_eq!(s.state_class, None);
    assert_eq!(
        s.options,
        vec!["OK", "Grid Loss / Islanding", "Anti-Islanding Reconnection Sync Timer", "Unknown Error"]
    );

    let m = discovery_config("1", HaSensor::OperatingMode);
    assert_eq!(m.options, vec!["Deep Sleep", "Awake Standby", "Active Standby", "Generating", "Unknown State"]);

    let t = discovery_config("1", HaSensor::Temperature);
    assert_eq!(t.unit_of_measurement, Some("°C"));
    assert_eq!(t.state_class, Some("measurement"));
}

#[test]
fn discovery_configs_cover_every_sensor_once() {
    let cs = discovery_configs("deadbeef");
    assert_eq!(cs.len(), SENSOR_COUNT);
    let ids: Vec<&str> = cs.iter().map(|c| c.unique_id.as_str()).collect();
    for (i, a) in ids.iter().enumerate() {
        for b in &ids[i + 1..] {
            assert_ne!(a, b);
        }
    }
    assert!(cs.iter().all(|c| c.state_topic == telemetry_topic("deadbeef")));
    assert_eq!(cs[0].unique_id, "nep_deadbeef_ac_power");
    assert_eq!(cs[11].unique_id, "nep_deadbeef_operating_mode");
    assert_eq!(device_info("x").name, "NEP BDM-400 (x)");
}

#[test]
fn every_reported_state_is_an_announced_option() {
    let bytes = hex::decode(BDM400).unwrap();
    let mut t = parse_payload(&bytes).unwrap();
    let errors = discovery_config("1", HaSensor::ErrorState).options;
    let modes = discovery_config("1", HaSensor::OperatingMode).options;
    for code in [0u16, 0x20, 0x04, 0x01, 0xffff] {
        t.status_code = code;
        assert!(errors.contains(&t.error_state_str()));
    }
    for raw in 0u16..=0x1ff {
        t.version_raw = raw;
        assert!(modes.contains(&t.operating_mode_str()));
    }
}

#[test]
fn worker_announces_until_success() {
    let bytes = hex::decode(BDM400).unwrap();
    let t = parse_payload(&bytes).unwrap();
    let mut worker = MqttWorker::new();
    assert!(!worker.is_discovered(t.serial_number));

    let plan = worker.on_telemetry(&t);
    assert_eq!(plan.serial, "12345678");
    assert_eq!(plan.topic, "nep/telemetry/12345678");
    assert_eq!(plan.discovery.as_ref().map(|c| c.len()), Some(SENSOR_COUNT));

    worker.on_discovery_result(t.serial_number, false);
    assert!(worker.on_telemetry(&t).discovery.is_some());

    worker.on_discovery_result(t.serial_number, true);
    assert!(worker.is_discovered(t.serial_number));
    assert!(worker.on_telemetry(&t).discovery.is_none());

    worker.on_discovery_result(t.serial_number, false);
    assert!(worker.is_discovered(t.serial_number));
}

#[test]
fn worker_announces_every_new_serial() {
    let bytes = hex::decode(BDM400).unwrap();
    let first = parse_payload(&bytes).unwrap();
    let mut second = parse_payload(&bytes).unwrap();
    second.serial_number = 0xdeadbeef;
    let mut worker = MqttWorker::new();
    worker.on_discovery_result(first.serial_number, true);
    assert!(worker.on_telemetry(&first).discovery.is_none());
    let plan = worker.on_telemetry(&second);
    let configs = plan.discovery.unwrap();
    assert_eq!(configs[0].topic, "homeassistant/sensor/nep_deadbeef/ac_power/config");
    worker.on_discovery_result(second.serial_number, true);
    assert!(worker.on_telemetry(&second).discovery.is_none());
    assert!(worker.is_discovered(first.serial_number));
}

#[test]
fn every_sensor_reads_a_published_key() {
    let keys: Vec<&str> = (0..TELEMETRY_KEY_COUNT).map(|i| TelemetryKey::at(i).key()).collect();
    assert_eq!(keys.len(), 14);
    for c in discovery_configs("1") {
        let key = c
            .value_template
            .strip_prefix("{{ value_json.")
            .and_then(|r| r.strip_suffix(" }}"))
            .unwrap()
            .to_string();
        assert!(keys.contains(&key.as_str()), "{}", key);
    }
    for i in 0..SENSOR_COUNT {
        assert!(keys.contains(&HaSensor::at(i).json_key()));
    }
}

#[test]
fn port_parsing() {
    assert_eq!(parse_u16("80"), Some(80));
    assert_eq!(parse_u16("+8080"), Some(8080));
    assert_eq!(parse_u16("0065535"), Some(65535));
    assert_eq!(parse_u16("65536"), None);
    assert_eq!(parse_u16("99999999999999999999"), None);
    assert_eq!(parse_u16(""), None);
    assert_eq!(parse_u16("+"), None);
    assert_eq!(parse_u16("-1"), None);
    assert_eq!(parse_u16(" 80"), None);
    assert_eq!(parse_u16("8O"), None);
    assert_eq!(parse_u16("８０"), None);
    for s in ["0", "1", "443", "+1", "00", "65535", "65536", "abc", "1e3", "++1"] {
        assert_eq!(parse_u16(s), s.parse::<u16>().ok(), "{}", s);
    }
    assert_eq!(port_from(Some("x"), 7), 7);
    assert_eq!(port_from(None, 7), 7);
    assert_eq!(port_from(Some("9"), 7), 9);
}

#[test]
fn config_defaults_and_overrides() {
    let d = AppConfig::from_values(None, None, None);
    assert_eq!(d.port, DEFAULT_HTTP_PORT);
    assert_eq!(d.port, 80);
    assert_eq!(d.mqtt.host, "::1");
    assert_eq!(d.mqtt.port, DEFAULT_MQTT_PORT);
    assert_eq!(d.mqtt.port, 1883);

    let c = AppConfig::from_values(Some("8080"), Some("192.168.1.50"), Some("oops"));
    assert_eq!(c.port, 8080);
    assert_eq!(c.mqtt.host, "192.168.1.50");
    assert_eq!(c.mqtt.port, 1883);
}

#[test]
fn relay_outcomes_pick_their_counter() {
    assert_eq!(relay_outcome_metric(true, true), MetricId::UpstreamForwards);
    assert_eq!(relay_outcome_metric(true, false), MetricId::UpstreamForwardErrors);
    assert_eq!(relay_outcome_metric(false, false), MetricId::UpstreamForwardErrors);
}
