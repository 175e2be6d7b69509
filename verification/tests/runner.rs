use worker_pool::budget::per_worker_budget;
use worker_pool::pool::combined_channel_capacity;
use worker_pool::resources::choose_worker_count_for;
use worker_pool::resources::format_system_info;
use worker_pool::resources::optimal_worker_count_for;
use worker_pool::ParallelRunner;
use worker_pool::SystemSnapshot;

const GIB: u64 = 1024 * 1024 * 1024;

#[test]
fn test_optimal_worker_count() {
    let count = ParallelRunner::get_optimal_worker_count();
    assert!(count >= 1, "Should have at least 1 worker");
    assert!(count <= 128, "Should not exceed reasonable limits"); // Sanity check
}

#[test]
fn test_parallel_runner_creation() {
    // Test with no limits
    let runner = ParallelRunner::new(None, None);
    assert!(runner.num_workers >= 1);
    assert_eq!(runner.max_tasks_per_worker, None);

    // Test with thread limit
    let runner = ParallelRunner::new(Some(4), None);
    assert!(runner.num_workers <= 4);
    assert!(runner.num_workers >= 1);

    // Test with task limit
    let runner = ParallelRunner::new(Some(4), Some(100));
    assert!(runner.num_workers <= 4);
    if let Some(tasks_per_worker) = runner.max_tasks_per_worker {
        assert!(tasks_per_worker > 0);
        assert!(tasks_per_worker * runner.num_workers as u32 >= 100);
    }
}

#[test]
fn test_system_info() {
    let info = ParallelRunner::get_system_info();
    assert!(info.contains("logical cores"));
    assert!(info.contains("total memory"));
    assert!(info.contains("available memory"));
}

#[test]
fn optimal_count_is_memory_bound_when_memory_is_scarce() {
    // 16 cores but only 8 GiB: at 2 GiB per worker the memory cap is 4.
    let snapshot = SystemSnapshot {
        logical_cores: 16,
        total_memory_bytes: 8 * GIB,
        available_memory_bytes: 4 * GIB,
    };
    assert_eq!(optimal_worker_count_for(&snapshot), 4);
}

#[test]
fn optimal_count_never_returns_zero() {
    // Degenerate single-core, memory-starved host: 1 GiB halves to zero,
    // which is clamped to one worker.
    let starved = SystemSnapshot {
        logical_cores: 1,
        total_memory_bytes: GIB,
        available_memory_bytes: 0,
    };
    assert_eq!(optimal_worker_count_for(&starved), 1);

    // Unknown memory does not constrain the count.
    let unknown_memory = SystemSnapshot {
        logical_cores: 6,
        total_memory_bytes: 0,
        available_memory_bytes: 0,
    };
    assert_eq!(optimal_worker_count_for(&unknown_memory), 6);
}

#[test]
fn chosen_count_respects_user_ceiling_end_to_end() {
    // 16 cores, 8 GiB: memory bound 4, optimal min(16, 4) = 4, and a user
    // ceiling of 4 keeps it at 4.
    let snapshot = SystemSnapshot {
        logical_cores: 16,
        total_memory_bytes: 8 * GIB,
        available_memory_bytes: 8 * GIB,
    };
    assert_eq!(choose_worker_count_for(Some(4), &snapshot), 4);
    assert_eq!(choose_worker_count_for(Some(2), &snapshot), 2);
    assert_eq!(choose_worker_count_for(Some(100), &snapshot), 4);
    assert_eq!(choose_worker_count_for(None, &snapshot), 4);
}

#[test]
fn zero_user_ceiling_is_clamped_to_one_worker() {
    let snapshot = SystemSnapshot {
        logical_cores: 8,
        total_memory_bytes: 32 * GIB,
        available_memory_bytes: 16 * GIB,
    };
    assert_eq!(choose_worker_count_for(Some(0), &snapshot), 1);
    let runner = ParallelRunner::new(Some(0), None);
    assert_eq!(runner.num_workers, 1);
}

#[test]
fn runner_from_snapshot_is_deterministic() {
    let snapshot = SystemSnapshot {
        logical_cores: 16,
        total_memory_bytes: 8 * GIB,
        available_memory_bytes: 8 * GIB,
    };
    let runner = ParallelRunner::from_snapshot(Some(4), Some(100), &snapshot);
    assert_eq!(runner.num_workers, 4);
    assert_eq!(runner.max_tasks_per_worker, Some(25));
}

#[test]
fn budget_splits_by_ceiling_division() {
    assert_eq!(per_worker_budget(Some(100), 4), Some(25));
    assert_eq!(per_worker_budget(Some(101), 4), Some(26));
    assert_eq!(per_worker_budget(Some(1), 5), Some(1));
    assert_eq!(per_worker_budget(Some(u32::MAX), 1), Some(u32::MAX));
    assert_eq!(per_worker_budget(Some(0), 3), Some(0));
}

#[test]
fn absent_budget_stays_absent() {
    assert_eq!(per_worker_budget(None, 1), None);
    assert_eq!(per_worker_budget(None, 7), None);
}

#[test]
fn budget_times_workers_covers_total() {
    for total in [1u32, 7, 99, 100, 101, 1000] {
        for workers in [1usize, 2, 3, 4, 7] {
            let per = per_worker_budget(Some(total), workers).unwrap();
            assert!(per as u64 * workers as u64 >= total as u64);
        }
    }
}

#[test]
fn planned_slots_get_consecutive_unique_node_ids() {
    let runner = ParallelRunner { num_workers: 3, max_tasks_per_worker: Some(10) };
    let slots = runner.plan_slots(10);
    assert_eq!(slots.len(), 3);
    let ids: Vec<u64> = slots.iter().map(|s| s.node_id).collect();
    assert_eq!(ids, vec![10, 11, 12]);
    for (k, slot) in slots.iter().enumerate() {
        assert_eq!(slot.slot_index, k);
        assert_eq!(slot.per_worker_task_limit, Some(10));
    }
    // No duplicates.
    for i in 0..ids.len() {
        for j in 0..ids.len() {
            if i != j {
                assert_ne!(ids[i], ids[j]);
            }
        }
    }
}

#[test]
fn combined_capacity_scales_with_pool_size() {
    assert_eq!(combined_channel_capacity(100, 3), 300);
    assert_eq!(combined_channel_capacity(1, 1), 1);
}

#[test]
fn system_info_line_is_exact_for_a_snapshot() {
    let snapshot = SystemSnapshot {
        logical_cores: 16,
        total_memory_bytes: 8 * GIB,
        available_memory_bytes: 3 * GIB,
    };
    let info = format_system_info(&snapshot);
    assert_eq!(
        info,
        "System Info: 16 logical cores, 8 GB total memory, 3 GB available memory"
    );
}
