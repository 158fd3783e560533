//! The one-shot hardware inventory record.
//!
//! The inventory carries static host facts. Every field the metrics source
//! cannot resolve degrades to a documented literal fallback instead of an
//! error: the query as a whole always succeeds.

use vstd::prelude::*;

verus! {

/// Static host facts, built fresh on every request and never cached.
pub struct HostInventory {
    /// Hostname, or the literal `"unknown"` when unavailable.
    pub host: String,
    /// Long-form OS version, or the literal `"Unknown OS"` when unavailable.
    pub os_version: String,
    /// CPU model string, or the literal `"Unknown"` when no CPU entry is
    /// reported.
    pub cpu_brand: String,
    /// Physical core count; `None` when the platform cannot report it,
    /// which is genuinely unknown and distinct from zero.
    pub physical_cores: Option<usize>,
    /// Total RAM, in bytes.
    pub total_memory: u64,
}

/// The view of an optional reading from the metrics source.
pub open spec fn reading_view(r: Option<String>) -> Option<Seq<char>> {
    match r {
        Some(s) => Some(s@),
        None => None,
    }
}

/// A resolved field: the reading where there is one, the fallback where
/// there is none.
pub open spec fn resolved(reading: Option<Seq<char>>, fallback: Seq<char>) -> Seq<char> {
    match reading {
        Some(s) => s,
        None => fallback,
    }
}

/// The inventory that a given set of readings determines, field by field.
pub open spec fn inventory_matches_readings(
    inv: HostInventory,
    host: Option<Seq<char>>,
    os_version: Option<Seq<char>>,
    cpu_brand: Option<Seq<char>>,
    physical_cores: Option<usize>,
    total_memory: u64,
) -> bool {
    &&& inv.host@ == resolved(host, "unknown"@)
    &&& inv.os_version@ == resolved(os_version, "Unknown OS"@)
    &&& inv.cpu_brand@ == resolved(cpu_brand, "Unknown"@)
    &&& inv.physical_cores == physical_cores
    &&& inv.total_memory == total_memory
}

/// Build the inventory record from one round of readings, substituting the
/// documented fallback for each absent field.
pub fn build_inventory(
    host: Option<String>,
    os_version: Option<String>,
    cpu_brand: Option<String>,
    physical_cores: Option<usize>,
    total_memory: u64,
) -> (inv: HostInventory)
    ensures
        inventory_matches_readings(
            inv,
            reading_view(host),
            reading_view(os_version),
            reading_view(cpu_brand),
            physical_cores,
            total_memory,
        ),
{
    let host_field: String = match host {
        Some(h) => h,
        None => "unknown".to_owned(),
    };
    let os_field: String = match os_version {
        Some(v) => v,
        None => "Unknown OS".to_owned(),
    };
    let brand_field: String = match cpu_brand {
        Some(b) => b,
        None => "Unknown".to_owned(),
    };
    HostInventory {
        host: host_field,
        os_version: os_field,
        cpu_brand: brand_field,
        physical_cores,
        total_memory,
    }
}

/// Law: the inventory query is idempotent. Two inventories built from the
/// same underlying host readings agree field for field.
pub proof fn lemma_inventory_idempotent(
    first: HostInventory,
    second: HostInventory,
    host: Option<Seq<char>>,
    os_version: Option<Seq<char>>,
    cpu_brand: Option<Seq<char>>,
    physical_cores: Option<usize>,
    total_memory: u64,
)
    requires
        inventory_matches_readings(first, host, os_version, cpu_brand, physical_cores, total_memory),
        inventory_matches_readings(second, host, os_version, cpu_brand, physical_cores, total_memory),
    ensures
        first.host@ == second.host@,
        first.os_version@ == second.os_version@,
        first.cpu_brand@ == second.cpu_brand@,
        first.physical_cores == second.physical_cores,
        first.total_memory == second.total_memory,
{
}

} // verus!
