//! The trusted boundary to the OS metrics source.
//!
//! Every OS-level reading the library uses comes through this module, as a
//! thin wrapper over `sysinfo`. Each wrapper converts the crate's values to
//! plain ones — byte counts, utilization bit patterns, optional strings —
//! and states nothing the `sysinfo` documentation does not promise; what a
//! reading determines is proved downstream by functions that take the
//! reading as an argument.

use vstd::prelude::*;
use crate::snapshot::SensorReading;

verus! {

#[verifier::external_type_specification]
#[verifier::external_body]
pub struct ExSystem(sysinfo::System);

/// The long-lived handle the sampling loop owns: an initialized `sysinfo`
/// system set up for incremental CPU and memory re-sampling.
pub struct MetricsSource {
    sys: sysinfo::System,
}

impl MetricsSource {
    /// Relies on sysinfo::System::new_with_specifics: a fresh handle that
    /// will refresh CPU utilization and memory counters.
    #[verifier::external_body]
    pub(crate) fn create() -> MetricsSource {
        MetricsSource {
            sys: sysinfo::System::new_with_specifics(
                sysinfo::RefreshKind::nothing()
                    .with_cpu(sysinfo::CpuRefreshKind::everything())
                    .with_memory(sysinfo::MemoryRefreshKind::everything()),
            ),
        }
    }

    /// Relies on sysinfo::System::refresh_specifics: re-samples CPU
    /// utilization and memory counters against the existing handle.
    #[verifier::external_body]
    pub(crate) fn refresh(&mut self) {
        self.sys.refresh_specifics(
            sysinfo::RefreshKind::nothing()
                .with_cpu(sysinfo::CpuRefreshKind::everything())
                .with_memory(sysinfo::MemoryRefreshKind::everything()),
        );
    }

    /// Relies on sysinfo::System::total_memory: the RAM size in bytes.
    #[verifier::external_body]
    pub(crate) fn total_memory(&self) -> u64 {
        self.sys.total_memory()
    }

    /// Relies on sysinfo::System::used_memory: the used RAM in bytes.
    #[verifier::external_body]
    pub(crate) fn used_memory(&self) -> u64 {
        self.sys.used_memory()
    }

    /// Relies on sysinfo::System::cpus and sysinfo::Cpu::cpu_usage: one
    /// utilization percentage per logical core, handed over verbatim as
    /// IEEE-754 single-precision bit patterns.
    #[verifier::external_body]
    pub(crate) fn per_core_usage_bits(&self) -> Vec<u32> {
        self.sys.cpus().iter().map(|c| c.cpu_usage().to_bits()).collect()
    }

    /// Relies on sysinfo::System::cpus and sysinfo::Cpu::brand: the brand
    /// string of the first reported CPU, or `None` when none is reported.
    #[verifier::external_body]
    pub(crate) fn cpu_brand(&self) -> Option<String> {
        self.sys.cpus().first().map(|c| c.brand().to_owned())
    }
}

/// Relies on sysinfo::System::host_name: the DNS hostname, computed anew on
/// every call; `None` when it cannot be resolved.
#[verifier::external_body]
pub(crate) fn host_name() -> Option<String> {
    sysinfo::System::host_name()
}

/// Relies on sysinfo::System::long_os_version: the long-form OS version,
/// computed anew on every call; `None` when it cannot be resolved.
#[verifier::external_body]
pub(crate) fn long_os_version() -> Option<String> {
    sysinfo::System::long_os_version()
}

/// Relies on sysinfo::System::physical_core_count: the physical core count,
/// or `None` when the platform cannot report it.
#[verifier::external_body]
pub(crate) fn physical_core_count() -> Option<usize> {
    sysinfo::System::physical_core_count()
}

/// Relies on sysinfo::Components::new_with_refreshed_list and the label and
/// temperature accessors of sysinfo::Component: a freshly enumerated thermal
/// sensor list, each entry's value handed over verbatim as an IEEE-754
/// single-precision bit pattern, `None` where the hardware was unreadable.
#[verifier::external_body]
pub(crate) fn sensor_readings() -> Vec<SensorReading> {
    sysinfo::Components::new_with_refreshed_list()
        .list()
        .iter()
        .map(|c| SensorReading {
            label: c.label().to_owned(),
            reading_bits: c.temperature().map(|t| t.to_bits()),
        })
        .collect()
}

} // verus!
