//! Resource estimation: how many workers the host can sustain.
//!
//! The live probe is a single trusted call into `sysinfo`; everything
//! computed from the probed values is verified against the spec functions
//! below, so the sizing rules can also be exercised on synthetic snapshots.

use vstd::prelude::*;

use crate::numeral::append_decimal;
use crate::numeral::spec_decimal;

verus! {

/// A point-in-time view of the host resources that sizing decisions read.
pub struct SystemSnapshot {
    /// Number of logical CPU cores the host reports.
    pub logical_cores: usize,
    /// Total RAM in bytes; zero means the probe could not tell.
    pub total_memory_bytes: u64,
    /// RAM available for (re)use, in bytes.
    pub available_memory_bytes: u64,
}

/// Whole gigabytes of memory represented by `bytes` (one gigabyte being
/// 1024 * 1024 * 1024 bytes).
pub open spec fn spec_memory_gib(bytes: nat) -> nat {
    bytes / 1073741824
}

/// The safe default worker count for a host with `cores` logical cores and
/// `total_memory_bytes` bytes of RAM: one worker per core, capped by memory
/// at a conservative two gigabytes per worker, and never below one. An
/// unknown memory size (zero bytes) does not constrain the count.
pub open spec fn spec_optimal_worker_count(cores: nat, total_memory_bytes: nat) -> nat {
    let mem_gib = spec_memory_gib(total_memory_bytes);
    let mem_cap = if mem_gib > 0 {
        if mem_gib / 2 == 0 {
            1nat
        } else {
            mem_gib / 2
        }
    } else {
        cores
    };
    let bounded = if mem_cap >= cores {
        cores
    } else {
        mem_cap
    };
    if bounded == 0 {
        1nat
    } else {
        bounded
    }
}

/// The worker count actually used when the caller supplies an optional
/// ceiling: the ceiling can only shrink the pool below the optimal count,
/// never grow it, and a zero ceiling is clamped to one worker.
pub open spec fn spec_choose_worker_count(
    user_max: Option<u32>,
    cores: nat,
    total_memory_bytes: nat,
) -> nat {
    let optimal = spec_optimal_worker_count(cores, total_memory_bytes);
    match user_max {
        Option::None => optimal,
        Option::Some(m) => if m == 0 {
            1nat
        } else if (m as nat) < optimal {
            m as nat
        } else {
            optimal
        },
    }
}

/// Relies on `sysinfo::System`: `new_all` loads the host data, the two
/// refresh calls bring CPU and memory up to date, and `cpus().len()`,
/// `total_memory()` and `available_memory()` read the logical core count
/// and the memory sizes in bytes. The probed values depend on the host, so
/// nothing is promised of them.
#[verifier::external_body]
pub fn probe_system() -> (snapshot: SystemSnapshot)
{
    let mut sys = sysinfo::System::new_all();
    sys.refresh_cpu_all();
    sys.refresh_memory();
    SystemSnapshot {
        logical_cores: sys.cpus().len(),
        total_memory_bytes: sys.total_memory(),
        available_memory_bytes: sys.available_memory(),
    }
}

/// The safe default worker count for the probed host state in `snapshot`.
pub fn optimal_worker_count_for(snapshot: &SystemSnapshot) -> (count: usize)
    ensures
        count as nat == spec_optimal_worker_count(
            snapshot.logical_cores as nat,
            snapshot.total_memory_bytes as nat,
        ),
{
    let cores = snapshot.logical_cores;
    let mem_gib: u64 = snapshot.total_memory_bytes / 1073741824;
    let mem_cap: u64 = if mem_gib > 0 {
        let half = mem_gib / 2;
        if half == 0 {
            1
        } else {
            half
        }
    } else {
        cores as u64
    };
    let bounded: usize = if mem_cap >= cores as u64 {
        cores
    } else {
        mem_cap as usize
    };
    if bounded == 0 {
        1
    } else {
        bounded
    }
}

/// The worker count for `snapshot` under the caller's optional ceiling.
pub fn choose_worker_count_for(user_max: Option<u32>, snapshot: &SystemSnapshot) -> (count: usize)
    ensures
        count as nat == spec_choose_worker_count(
            user_max,
            snapshot.logical_cores as nat,
            snapshot.total_memory_bytes as nat,
        ),
        count >= 1,
{
    let optimal = optimal_worker_count_for(snapshot);
    proof {
        lemma_optimal_worker_count_at_least_one(
            snapshot.logical_cores as nat,
            snapshot.total_memory_bytes as nat,
        );
    }
    match user_max {
        Option::None => optimal,
        Option::Some(m) => {
            if m == 0 {
                1
            } else {
                let m_workers = m as usize;
                if m_workers < optimal {
                    m_workers
                } else {
                    optimal
                }
            }
        },
    }
}

/// The optimal worker count is always at least one, whatever the host says.
pub proof fn lemma_optimal_worker_count_at_least_one(cores: nat, total_memory_bytes: nat)
    ensures
        spec_optimal_worker_count(cores, total_memory_bytes) >= 1,
{
}

/// On a host with at least one core the optimal worker count never exceeds
/// the core count, and is still at least one.
pub proof fn lemma_optimal_worker_count_bounds(cores: nat, total_memory_bytes: nat)
    requires
        cores >= 1,
    ensures
        spec_optimal_worker_count(cores, total_memory_bytes) >= 1,
        spec_optimal_worker_count(cores, total_memory_bytes) <= cores,
{
}

/// A user ceiling of at least one bounds the chosen worker count by both
/// the ceiling itself and the optimal count.
pub proof fn lemma_choose_respects_ceiling(user_max: u32, cores: nat, total_memory_bytes: nat)
    requires
        user_max >= 1,
    ensures
        spec_choose_worker_count(Some(user_max), cores, total_memory_bytes) <= user_max as nat,
        spec_choose_worker_count(Some(user_max), cores, total_memory_bytes)
            <= spec_optimal_worker_count(cores, total_memory_bytes),
{
}

/// The diagnostic line summarizing a snapshot: core count and memory sizes
/// in whole gigabytes.
pub open spec fn spec_system_info(
    cores: nat,
    total_memory_bytes: nat,
    available_memory_bytes: nat,
) -> Seq<char> {
    "System Info: "@ + spec_decimal(cores) + " logical cores, "@
        + spec_decimal(spec_memory_gib(total_memory_bytes)) + " GB total memory, "@
        + spec_decimal(spec_memory_gib(available_memory_bytes)) + " GB available memory"@
}

/// Renders the diagnostic line for `snapshot`. The string is informational
/// only and carries no control-flow meaning.
pub fn format_system_info(snapshot: &SystemSnapshot) -> (info: String)
    ensures
        info@ == spec_system_info(
            snapshot.logical_cores as nat,
            snapshot.total_memory_bytes as nat,
            snapshot.available_memory_bytes as nat,
        ),
{
    let total_gib: u64 = snapshot.total_memory_bytes / 1073741824;
    let available_gib: u64 = snapshot.available_memory_bytes / 1073741824;
    let mut info = String::new();
    info.append("System Info: ");
    append_decimal(snapshot.logical_cores as u64, &mut info);
    info.append(" logical cores, ");
    append_decimal(total_gib, &mut info);
    info.append(" GB total memory, ");
    append_decimal(available_gib, &mut info);
    info.append(" GB available memory");
    proof {
        assert(info@ =~= spec_system_info(
            snapshot.logical_cores as nat,
            snapshot.total_memory_bytes as nat,
            snapshot.available_memory_bytes as nat,
        ));
    }
    info
}

} // verus!
