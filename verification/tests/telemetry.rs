use host_telemetry::cpu::{decode_centi_percent, mean_of_readings, CENTI_PERCENT_CAP};
use host_telemetry::inventory::build_inventory;
use host_telemetry::publisher::{get_specs, new_sampling_source, sample_snapshot, telemetry_topic,
    SAMPLING_INTERVAL_MS};
use host_telemetry::snapshot::{build_snapshot, SensorReading};
use host_telemetry::window::{set_click_through, WindowSurface};

fn reading(label: &str, value: Option<f32>) -> SensorReading {
    SensorReading { label: label.to_string(), reading_bits: value.map(f32::to_bits) }
}

#[test]
fn decode_exact_values() {
    assert_eq!(decode_centi_percent(12.5f32.to_bits()), 1250);
    assert_eq!(decode_centi_percent(0.5f32.to_bits()), 50);
    assert_eq!(decode_centi_percent(25.75f32.to_bits()), 2575);
    assert_eq!(decode_centi_percent(100.0f32.to_bits()), 10000);
    assert_eq!(decode_centi_percent(0.0f32.to_bits()), 0);
}

#[test]
fn decode_odd_values_read_as_zero_or_clamp() {
    assert_eq!(decode_centi_percent((-5.0f32).to_bits()), 0);
    assert_eq!(decode_centi_percent((-0.0f32).to_bits()), 0);
    assert_eq!(decode_centi_percent(f32::NAN.to_bits()), 0);
    assert_eq!(decode_centi_percent(f32::INFINITY.to_bits()), 0);
    assert_eq!(decode_centi_percent(f32::NEG_INFINITY.to_bits()), 0);
    assert_eq!(decode_centi_percent(1.0e-40f32.to_bits()), 0);
    assert_eq!(decode_centi_percent(150.0f32.to_bits()), CENTI_PERCENT_CAP);
    assert_eq!(decode_centi_percent(f32::MAX.to_bits()), CENTI_PERCENT_CAP);
}

#[test]
fn mean_exact_values() {
    assert_eq!(mean_of_readings(&vec![1000, 2000]), 1500);
    assert_eq!(mean_of_readings(&vec![1, 2]), 1);
    assert_eq!(mean_of_readings(&vec![10000, 10000, 10000]), 10000);
    assert_eq!(mean_of_readings(&vec![]), 0);
    assert_eq!(mean_of_readings(&vec![7777]), 7777);
}

#[test]
fn snapshot_mean_lies_in_range_of_readings() {
    let snap = build_snapshot(&vec![2500, 7500], 10, 20, &vec![]);
    assert_eq!(snap.cpu_usage_centi, 5000);
    assert!(snap.cpu_usage_centi <= CENTI_PERCENT_CAP);
    assert_eq!(snap.memory_used, 10);
    assert_eq!(snap.memory_total, 20);
}

#[test]
fn snapshot_copies_sensor_readings_in_order() {
    let sensors = vec![
        reading("coretemp Core 0", Some(41.5)),
        reading("acpitz temp1", Some(38.0)),
        reading("nvme Composite", None),
    ];
    let snap = build_snapshot(&vec![], 1, 2, &sensors);
    assert_eq!(snap.temperatures.len(), 3);
    for (probe, raw) in snap.temperatures.iter().zip(sensors.iter()) {
        assert_eq!(probe.label, raw.label);
        assert_eq!(probe.temperature_bits, raw.reading_bits);
    }
    assert_eq!(snap.temperatures[0].temperature_bits, Some(41.5f32.to_bits()));
}

#[test]
fn snapshot_with_zero_sensors_has_empty_temperature_list() {
    let snap = build_snapshot(&vec![1000], 5, 6, &vec![]);
    assert_eq!(snap.temperatures.len(), 0);
    assert!(snap.temperatures.is_empty());
}

#[test]
fn inventory_fallbacks_for_missing_fields() {
    let inv = build_inventory(None, None, None, None, 8192);
    assert_eq!(inv.host, "unknown");
    assert_eq!(inv.os_version, "Unknown OS");
    assert_eq!(inv.cpu_brand, "Unknown");
    assert_eq!(inv.physical_cores, None);
    assert_eq!(inv.total_memory, 8192);
}

#[test]
fn inventory_keeps_resolved_fields() {
    let inv = build_inventory(
        Some("atlas".to_string()),
        Some("Linux (Ubuntu 24.04)".to_string()),
        Some("Example CPU 3000".to_string()),
        Some(8),
        16384,
    );
    assert_eq!(inv.host, "atlas");
    assert_eq!(inv.os_version, "Linux (Ubuntu 24.04)");
    assert_eq!(inv.cpu_brand, "Example CPU 3000");
    assert_eq!(inv.physical_cores, Some(8));
    assert_eq!(inv.total_memory, 16384);
}

#[test]
fn inventory_is_idempotent_for_same_readings() {
    let a = build_inventory(Some("atlas".to_string()), None, Some("Example CPU".to_string()), Some(4), 1024);
    let b = build_inventory(Some("atlas".to_string()), None, Some("Example CPU".to_string()), Some(4), 1024);
    assert_eq!(a.host, b.host);
    assert_eq!(a.os_version, b.os_version);
    assert_eq!(a.cpu_brand, b.cpu_brand);
    assert_eq!(a.physical_cores, b.physical_cores);
    assert_eq!(a.total_memory, b.total_memory);
}

#[test]
fn get_specs_twice_returns_identical_static_facts() {
    let first = get_specs();
    let second = get_specs();
    assert_eq!(first.host, second.host);
    assert_eq!(first.os_version, second.os_version);
    assert_eq!(first.cpu_brand, second.cpu_brand);
    assert_eq!(first.physical_cores, second.physical_cores);
    assert_eq!(first.total_memory, second.total_memory);
    assert!(!first.host.is_empty());
    assert!(!first.os_version.is_empty());
}

#[test]
fn click_through_toggle_is_idempotent_on_live_surface() {
    let mut surface = WindowSurface { alive: true, ignore_cursor_events: false };
    let first = set_click_through(&mut surface, true);
    assert!(first.is_ok());
    assert!(surface.ignore_cursor_events);
    let second = set_click_through(&mut surface, true);
    assert!(second.is_ok());
    assert!(surface.alive);
    assert!(surface.ignore_cursor_events);
    let off = set_click_through(&mut surface, false);
    assert!(off.is_ok());
    assert!(!surface.ignore_cursor_events);
}

#[test]
fn click_through_on_destroyed_surface_errors_without_crash() {
    let mut surface = WindowSurface { alive: false, ignore_cursor_events: false };
    let first = set_click_through(&mut surface, true);
    assert!(first.is_err());
    assert!(!surface.ignore_cursor_events);
    let second = set_click_through(&mut surface, true);
    assert_eq!(first, second);
    assert!(!surface.alive);
}

#[test]
fn sampled_snapshot_matches_schema() {
    let mut source = new_sampling_source();
    let snap = sample_snapshot(&mut source);
    assert!(snap.cpu_usage_centi <= CENTI_PERCENT_CAP);
    assert!(snap.memory_total > 0);
    let again = sample_snapshot(&mut source);
    assert!(again.cpu_usage_centi <= CENTI_PERCENT_CAP);
}

#[test]
fn publisher_configuration_is_fixed() {
    assert_eq!(telemetry_topic(), "telemetry://metrics");
    assert_eq!(SAMPLING_INTERVAL_MS, 1000);
}
