//! Resource sampler: one point-in-time reading of host CPU, memory and
//! disk utilization, converted to the megabyte figures of a report.

use crate::entity::{SystemResources, Usage};
use sysinfo::{CpuExt, DiskExt, System, SystemExt};
use vstd::prelude::*;

verus! {

/// Bytes per megabyte.
pub const BYTES_PER_MB: u64 = 1048576;

/// One raw reading handed back by the operating-system query.
pub struct RawSystemSample {
    /// CPU utilization, already formatted to two decimals with a
    /// trailing `%`.
    pub cpu_usage: String,
    pub total_memory_bytes: u64,
    pub used_memory_bytes: u64,
    /// Per-disk total and available space, in bytes.
    pub disks: Vec<(u64, u64)>,
}

/// Relies on sysinfo's `System`: refreshes every source once, then reads
/// the global CPU usage, the memory totals and each disk's space
/// figures. The reading depends on the machine and the moment, so
/// nothing is promised of the values.
#[verifier::external_body]
fn sample_system() -> RawSystemSample {
    let mut system = System::new_all();
    system.refresh_all();
    RawSystemSample {
        cpu_usage: format!("{:.2}%", system.global_cpu_info().cpu_usage()),
        total_memory_bytes: system.total_memory(),
        used_memory_bytes: system.used_memory(),
        disks: system.disks().iter().map(|d| (d.total_space(), d.available_space())).collect(),
    }
}

/// Total disk space over all volumes, each converted to whole megabytes
/// before summing.
pub open spec fn disk_total_mb(disks: Seq<(u64, u64)>) -> int
    decreases disks.len(),
{
    if disks.len() == 0 {
        0
    } else {
        disk_total_mb(disks.drop_last()) + disks.last().0 as int / BYTES_PER_MB as int
    }
}

/// Used disk space over all volumes: total minus available, in whole
/// megabytes per volume; a volume reporting more available than total
/// space counts as unused.
pub open spec fn disk_used_mb(disks: Seq<(u64, u64)>) -> int
    decreases disks.len(),
{
    if disks.len() == 0 {
        0
    } else {
        disk_used_mb(disks.drop_last()) + (if disks.last().1 <= disks.last().0 {
            (disks.last().0 as int - disks.last().1 as int) / BYTES_PER_MB as int
        } else {
            0
        })
    }
}

/// `x` clipped to the range of a 64-bit unsigned counter.
pub open spec fn sat_u64(x: int) -> int {
    if x > u64::MAX as int {
        u64::MAX as int
    } else {
        x
    }
}

/// Megabyte figures assembled from one raw reading: memory in whole
/// megabytes, disk space summed across all volumes, each disk sum
/// saturating at the largest 64-bit value.
pub fn system_resources_from_sample(sample: &RawSystemSample) -> (r: SystemResources)
    ensures
        r.cpu_usage == sample.cpu_usage,
        r.memory_usage.used == sample.used_memory_bytes / BYTES_PER_MB,
        r.memory_usage.total == sample.total_memory_bytes / BYTES_PER_MB,
        r.disk_usage.total == sat_u64(disk_total_mb(sample.disks@)),
        r.disk_usage.used == sat_u64(disk_used_mb(sample.disks@)),
        r.disk_usage.used <= r.disk_usage.total,
{
    let n = sample.disks.len();
    let mut total_acc: u128 = 0;
    let mut used_acc: u128 = 0;
    let mut i: usize = 0;
    while i < n
        invariant
            n == sample.disks@.len(),
            i <= n,
            total_acc == disk_total_mb(sample.disks@.subrange(0, i as int)),
            used_acc == disk_used_mb(sample.disks@.subrange(0, i as int)),
            used_acc <= total_acc,
            total_acc <= i * (u64::MAX as u128),
        decreases n - i,
    {
        let (total_space, available_space) = sample.disks[i];
        let total_mb = total_space / BYTES_PER_MB;
        let used_mb = if available_space <= total_space {
            (total_space - available_space) / BYTES_PER_MB
        } else {
            0
        };
        proof {
            assert(sample.disks@.subrange(0, i as int + 1).drop_last() =~= sample.disks@.subrange(
                0,
                i as int,
            ));
            assert(used_mb <= total_mb) by {
                if available_space <= total_space {
                    vstd::arithmetic::div_mod::lemma_div_is_ordered(
                        total_space as int - available_space as int,
                        total_space as int,
                        BYTES_PER_MB as int,
                    );
                }
            }
        }
        total_acc = total_acc + total_mb as u128;
        used_acc = used_acc + used_mb as u128;
        i = i + 1;
    }
    proof {
        assert(sample.disks@.subrange(0, n as int) =~= sample.disks@);
    }
    let disk_total = if total_acc > u64::MAX as u128 {
        u64::MAX
    } else {
        total_acc as u64
    };
    let disk_used = if used_acc > u64::MAX as u128 {
        u64::MAX
    } else {
        used_acc as u64
    };
    SystemResources {
        cpu_usage: sample.cpu_usage.clone(),
        memory_usage: Usage {
            used: sample.used_memory_bytes / BYTES_PER_MB,
            total: sample.total_memory_bytes / BYTES_PER_MB,
        },
        disk_usage: Usage { used: disk_used, total: disk_total },
    }
}

/// One best-effort reading of the host's resources: CPU, memory and
/// disk, the latter summed across all mounted volumes.
pub fn get_system_resources() -> (r: SystemResources)
    ensures
        r.disk_usage.used <= r.disk_usage.total,
{
    let sample = sample_system();
    system_resources_from_sample(&sample)
}

} // verus!
