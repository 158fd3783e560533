//! The telemetry publisher's per-cycle work, and the one-shot inventory
//! query.
//!
//! The sampling loop itself — spawn once at startup, publish, suspend
//! cooperatively for `SAMPLING_INTERVAL_MS`, repeat for the life of the
//! process — lives in the hosting shell, which owns the event bus and the
//! scheduler. Each cycle the shell calls `sample_snapshot` on the one
//! long-lived `MetricsSource` it owns and publishes the result on
//! `telemetry_topic()`, fire-and-forget: a failed or unheard publish is
//! dropped and the next cycle proceeds.

use vstd::prelude::*;
use crate::cpu::{decode_centi_percent, lemma_mean_bounded, CENTI_PERCENT_CAP};
use crate::inventory::{build_inventory, HostInventory};
use crate::snapshot::{build_snapshot, SensorReading, TelemetrySnapshot};
use crate::source::{host_name, long_os_version, physical_core_count, sensor_readings,
    MetricsSource};

verus! {

/// Fixed cadence of the sampling loop, in milliseconds.
pub const SAMPLING_INTERVAL_MS: u64 = 1000;

/// The event-channel topic every snapshot is published under.
pub fn telemetry_topic() -> (topic: &'static str)
    ensures
        topic@ == "telemetry://metrics"@,
{
    "telemetry://metrics"
}

/// A fresh metrics-source handle for a sampling loop. Each concurrent actor
/// constructs its own instance; none is ever shared.
pub fn new_sampling_source() -> MetricsSource {
    MetricsSource::create()
}

/// One sampling cycle's reading: incrementally re-sample CPU and memory on
/// the owned handle, enumerate the thermal sensors afresh, and build the
/// snapshot.
///
/// The readings themselves are whatever the host reports; what they
/// determine is pinned by `build_snapshot`'s contract. Whatever comes back,
/// the published utilization figure is a mean of per-core readings each
/// clamped to 100.00%, so it lies in 0 ..= `CENTI_PERCENT_CAP`.
pub fn sample_snapshot(source: &mut MetricsSource) -> (snap: TelemetrySnapshot)
    ensures
        snap.cpu_usage_centi <= CENTI_PERCENT_CAP,
{
    source.refresh();
    let memory_used: u64 = source.used_memory();
    let memory_total: u64 = source.total_memory();
    let raw: Vec<u32> = source.per_core_usage_bits();
    let mut per_core: Vec<u32> = Vec::new();
    let mut i: usize = 0;
    while i < raw.len()
        invariant
            i <= raw@.len(),
            per_core@.len() == i,
            forall|j: int| 0 <= j < i ==> (#[trigger] per_core@[j]) <= CENTI_PERCENT_CAP,
        decreases raw@.len() - i,
    {
        per_core.push(decode_centi_percent(raw[i]));
        i = i + 1;
    }
    let sensors: Vec<SensorReading> = sensor_readings();
    proof {
        lemma_mean_bounded(per_core@, CENTI_PERCENT_CAP);
    }
    build_snapshot(&per_core, memory_used, memory_total, &sensors)
}

/// The one-shot inventory query: initialize a metrics source of its own,
/// query the static host facts, and build the record.
///
/// Always succeeds: each field the source cannot resolve degrades to its
/// documented fallback inside `build_inventory`, whose contract pins every
/// field of the result to the readings gathered here.
pub fn get_specs() -> HostInventory {
    let mut source = MetricsSource::create();
    source.refresh();
    let cpu_brand: Option<String> = source.cpu_brand();
    let total_memory: u64 = source.total_memory();
    build_inventory(host_name(), long_os_version(), cpu_brand, physical_core_count(), total_memory)
}

} // verus!
