//! The telemetry snapshot and its builder.
//!
//! A snapshot is one immutable reading of everything the sampling loop
//! tracks: average CPU utilization, the memory pair, and the thermal sensor
//! list. The builder is a pure transformation from raw metrics-source
//! readings to a snapshot; it does no I/O, filters nothing, converts no
//! units, and keeps the sensor readings in source order and verbatim.

use vstd::prelude::*;
use crate::cpu::{mean_centi, mean_of_readings};

verus! {

/// One raw thermal reading as the metrics source enumerated it: a
/// source-defined label and the sensor value, carried verbatim as the bit
/// pattern of an IEEE-754 single-precision degree reading, or `None` where
/// the hardware could not be read.
pub struct SensorReading {
    pub label: String,
    pub reading_bits: Option<u32>,
}

/// One thermal probe in a published snapshot; a direct copy of the raw
/// reading it came from.
pub struct TemperatureProbe {
    /// Human-readable sensor identifier; not guaranteed unique or stable.
    pub label: String,
    /// The sensor-reported value, verbatim, as an IEEE-754 single-precision
    /// bit pattern; `None` where the hardware was unreadable.
    pub temperature_bits: Option<u32>,
}

/// One immutable telemetry reading, built fresh each sampling cycle and
/// discarded after it is published.
pub struct TelemetrySnapshot {
    /// Average utilization across all logical cores, in hundredths of a
    /// percent, 0 ..= 10000.
    pub cpu_usage_centi: u32,
    /// Used RAM, in bytes.
    pub memory_used: u64,
    /// Total RAM, in bytes.
    pub memory_total: u64,
    /// Thermal probes, in source enumeration order; empty on a host without
    /// sensors.
    pub temperatures: Vec<TemperatureProbe>,
}

/// The probes of a snapshot copy the raw readings: same count, and the
/// entry at each position carries the label and value of the reading at
/// that position, unchanged.
pub open spec fn probes_copy_readings(probes: Seq<TemperatureProbe>, readings: Seq<SensorReading>) -> bool {
    &&& probes.len() == readings.len()
    &&& forall|i: int| 0 <= i < readings.len() ==> {
        &&& (#[trigger] probes[i]).label@ == readings[i].label@
        &&& probes[i].temperature_bits == readings[i].reading_bits
    }
}

/// Build one snapshot from current readings.
///
/// The utilization figure is the arithmetic mean of the per-core readings
/// (zero when no core is reported); the memory pair is taken as given; the
/// temperature list is a position-for-position copy of the sensor readings.
pub fn build_snapshot(
    per_core_centi: &Vec<u32>,
    memory_used: u64,
    memory_total: u64,
    sensors: &Vec<SensorReading>,
) -> (snap: TelemetrySnapshot)
    ensures
        snap.cpu_usage_centi as int == mean_centi(per_core_centi@),
        snap.memory_used == memory_used,
        snap.memory_total == memory_total,
        probes_copy_readings(snap.temperatures@, sensors@),
{
    let cpu_usage_centi: u32 = mean_of_readings(per_core_centi);
    let mut temperatures: Vec<TemperatureProbe> = Vec::new();
    let mut i: usize = 0;
    while i < sensors.len()
        invariant
            i <= sensors@.len(),
            temperatures@.len() == i,
            forall|j: int| 0 <= j < i ==> {
                &&& (#[trigger] temperatures@[j]).label@ == sensors@[j].label@
                &&& temperatures@[j].temperature_bits == sensors@[j].reading_bits
            },
        decreases sensors@.len() - i,
    {
        let probe = TemperatureProbe {
            label: sensors[i].label.clone(),
            temperature_bits: sensors[i].reading_bits,
        };
        temperatures.push(probe);
        i = i + 1;
    }
    TelemetrySnapshot { cpu_usage_centi, memory_used, memory_total, temperatures }
}

} // verus!
