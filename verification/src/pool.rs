//! The pool coordinator: sizing, per-slot planning, and the channel
//! capacity rule.
//!
//! A [`ParallelRunner`] fixes the worker count and the per-worker task
//! ceiling once, at construction. [`ParallelRunner::plan_slots`] then lays
//! out one [`WorkerSlot`] per slot — consecutive node ids from a base,
//! a fresh signing identity each, and the shared task ceiling — so a
//! caller can start one worker per slot. The runtime that actually spawns
//! the workers and relays their events lives outside this crate; every
//! decision it takes comes from here.

use vstd::prelude::*;

use crate::budget::lemma_budget_covers_total;
use crate::budget::per_worker_budget;
use crate::budget::spec_per_worker_budget;
use crate::identity::generate_signing_key;
use crate::resources::SystemSnapshot;
use crate::resources::choose_worker_count_for;
use crate::resources::format_system_info;
use crate::resources::lemma_optimal_worker_count_at_least_one;
use crate::resources::optimal_worker_count_for;
use crate::resources::probe_system;
use crate::resources::spec_choose_worker_count;
use crate::resources::spec_system_info;

verus! {

/// Sizing and allocation results for one pool, immutable once computed.
pub struct ParallelRunner {
    /// Number of worker slots to spawn; at least one.
    pub num_workers: usize,
    /// Uniform per-worker task ceiling, if a global ceiling was given.
    pub max_tasks_per_worker: Option<u32>,
}

/// Everything one worker slot is created with: its position, its derived
/// node id, its own fresh identity, and its task ceiling.
pub struct WorkerSlot {
    /// 0-based position of the slot in the pool.
    pub slot_index: usize,
    /// Node id derived from the pool's base id: `base + slot_index`.
    pub node_id: u64,
    /// This slot's own signing keypair, generated at planning time.
    pub identity: ed25519_dalek::SigningKey,
    /// Uniform per-worker task ceiling, shared by every slot.
    pub per_worker_task_limit: Option<u32>,
}

impl ParallelRunner {
    /// A runner's sizing is consistent: at least one worker, and the
    /// per-worker ceiling is the uniform split of some global ceiling.
    pub open spec fn wf(self) -> bool {
        self.num_workers >= 1
    }

    /// Sizes a pool from an explicit resource snapshot: the worker count
    /// is the snapshot's optimal count shrunk by the caller's ceiling,
    /// and the optional global task ceiling is split uniformly over it.
    pub fn from_snapshot(
        max_threads: Option<u32>,
        max_tasks: Option<u32>,
        snapshot: &SystemSnapshot,
    ) -> (runner: Self)
        ensures
            runner.num_workers as nat == spec_choose_worker_count(
                max_threads,
                snapshot.logical_cores as nat,
                snapshot.total_memory_bytes as nat,
            ),
            runner.max_tasks_per_worker == spec_per_worker_budget(
                max_tasks,
                runner.num_workers as nat,
            ),
            runner.wf(),
    {
        let num_workers = choose_worker_count_for(max_threads, snapshot);
        let max_tasks_per_worker = per_worker_budget(max_tasks, num_workers);
        ParallelRunner { num_workers, max_tasks_per_worker }
    }

    /// Sizes a pool from the live host state: probes the resources once,
    /// then sizes exactly as [`ParallelRunner::from_snapshot`]. The probed
    /// values are the host's to choose; whatever they are, the pool has at
    /// least one worker, a ceiling of at least one is respected, and the
    /// task ceiling is split uniformly over the chosen count.
    pub fn new(max_threads: Option<u32>, max_tasks: Option<u32>) -> (runner: Self)
        ensures
            runner.wf(),
            runner.num_workers >= 1,
            max_threads matches Some(m) ==> (m >= 1 ==> runner.num_workers <= m as usize),
            max_threads matches Some(m) ==> (m == 0 ==> runner.num_workers == 1),
            runner.max_tasks_per_worker == spec_per_worker_budget(
                max_tasks,
                runner.num_workers as nat,
            ),
    {
        let snapshot = probe_system();
        let runner = Self::from_snapshot(max_threads, max_tasks, &snapshot);
        proof {
            lemma_optimal_worker_count_at_least_one(
                snapshot.logical_cores as nat,
                snapshot.total_memory_bytes as nat,
            );
        }
        runner
    }

    /// The safe default worker count for the live host: probes the
    /// resources and applies the sizing rule. Never zero.
    pub fn get_optimal_worker_count() -> (count: usize)
        ensures
            count >= 1,
    {
        let snapshot = probe_system();
        let count = optimal_worker_count_for(&snapshot);
        proof {
            lemma_optimal_worker_count_at_least_one(
                snapshot.logical_cores as nat,
                snapshot.total_memory_bytes as nat,
            );
        }
        count
    }

    /// The diagnostic line for the live host state: the probed core count
    /// and memory sizes rendered as by
    /// [`crate::resources::format_system_info`].
    pub fn get_system_info() -> (info: String)
        ensures
            exists|cores: nat, total: nat, available: nat|
                info@ == #[trigger] spec_system_info(cores, total, available),
    {
        let snapshot = probe_system();
        let info = format_system_info(&snapshot);
        proof {
            assert(info@ == spec_system_info(
                snapshot.logical_cores as nat,
                snapshot.total_memory_bytes as nat,
                snapshot.available_memory_bytes as nat,
            ));
        }
        info
    }

    /// Lays out one slot per worker: slot `k` gets node id
    /// `base_node_id + k`, a fresh identity of its own, and the uniform
    /// task ceiling. Either every slot is produced or, the planning being
    /// a plain loop, nothing observable happens halfway.
    pub fn plan_slots(&self, base_node_id: u64) -> (slots: Vec<WorkerSlot>)
        requires
            base_node_id + self.num_workers <= u64::MAX,
        ensures
            slots@.len() == self.num_workers,
            forall|k: int| 0 <= k < slots@.len() ==> {
                &&& (#[trigger] slots@[k]).slot_index == k
                &&& slots@[k].node_id == base_node_id + k
                &&& slots@[k].per_worker_task_limit == self.max_tasks_per_worker
            },
    {
        let mut slots: Vec<WorkerSlot> = Vec::new();
        let mut k: usize = 0;
        while k < self.num_workers
            invariant
                k <= self.num_workers,
                base_node_id + self.num_workers <= u64::MAX,
                slots@.len() == k,
                forall|j: int| 0 <= j < slots@.len() ==> {
                    &&& (#[trigger] slots@[j]).slot_index == j
                    &&& slots@[j].node_id == base_node_id + j
                    &&& slots@[j].per_worker_task_limit == self.max_tasks_per_worker
                },
            decreases self.num_workers - k,
        {
            let identity = generate_signing_key();
            slots.push(
                WorkerSlot {
                    slot_index: k,
                    node_id: base_node_id + k as u64,
                    identity,
                    per_worker_task_limit: self.max_tasks_per_worker,
                },
            );
            k += 1;
        }
        slots
    }
}

/// The capacity of the combined event channel: room for one full
/// per-worker queue per slot, so backpressure rather than unbounded
/// growth applies when the caller drains slowly.
pub fn combined_channel_capacity(queue_capacity: usize, num_workers: usize) -> (capacity: usize)
    requires
        queue_capacity * num_workers <= usize::MAX,
    ensures
        capacity == queue_capacity * num_workers,
{
    queue_capacity * num_workers
}

/// A runner sized for a global task ceiling of at least one can perform
/// the whole budget: its per-worker ceiling times its worker count covers
/// the global ceiling (possibly overshooting, since the split is a
/// uniform ceiling division).
pub proof fn lemma_runner_covers_global_ceiling(runner: ParallelRunner, total: u32)
    requires
        runner.wf(),
        total >= 1,
        runner.max_tasks_per_worker == spec_per_worker_budget(
            Some(total),
            runner.num_workers as nat,
        ),
    ensures
        runner.max_tasks_per_worker matches Some(per) && per * runner.num_workers >= total,
{
    lemma_budget_covers_total(total, runner.num_workers as nat);
}

/// A planned pool of size `S` has exactly `S` distinct node ids: slots at
/// different positions never share one, since each id is the base plus
/// the slot's own position.
pub proof fn lemma_node_ids_unique(slots: Seq<WorkerSlot>, base_node_id: u64)
    requires
        forall|k: int| 0 <= k < slots.len() ==> (#[trigger] slots[k]).node_id == base_node_id + k,
    ensures
        forall|i: int, j: int|
            0 <= i < slots.len() && 0 <= j < slots.len() && i != j ==> (#[trigger] slots[i]).node_id
                != (#[trigger] slots[j]).node_id,
{
}

} // verus!
