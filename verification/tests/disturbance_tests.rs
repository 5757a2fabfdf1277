use std::time::Duration;

use vrchat_x3d_start_fix::config::{CpuCoverage, Profile};
use vrchat_x3d_start_fix::disturbance::{build_worker_plan, phase_offset, DisturbanceReport, WorkerExit};

fn offset(index: usize, count: usize, period: Duration) -> Duration {
    Duration::from_nanos(phase_offset(index, count, period.as_nanos()))
}

#[test]
fn phases_are_evenly_staggered() {
    let period = Duration::from_millis(100);
    assert_eq!(offset(0, 4, period), Duration::ZERO);
    assert_eq!(offset(1, 4, period), Duration::from_millis(25));
    assert_eq!(offset(3, 4, period), Duration::from_millis(75));
}

#[test]
fn busy_and_rest_match_duty_cycle() {
    let params = Profile::Robust.params();
    assert_eq!(params.busy_ms(), 50);
    assert_eq!(params.rest_ms(), 50);
}

#[test]
fn phase_offset_edges() {
    assert_eq!(phase_offset(3, 0, 1_000), 0);
    assert_eq!(phase_offset(2, 3, 100), 66);
    assert_eq!(phase_offset(2, 1, u128::MAX), (u128::MAX as u64));
}

fn cores(n: usize) -> Vec<core_affinity::CoreId> {
    (0..n).map(|id| core_affinity::CoreId { id }).collect()
}

#[test]
fn worker_plans_follow_coverage() {
    let mut params = Profile::Robust.params();
    let all = build_worker_plan(&params, &cores(4), 2);
    assert_eq!(all.len(), 4);
    assert_eq!(all[2].core_id, Some(core_affinity::CoreId { id: 2 }));
    assert_eq!(all[2].phase, 50_000_000);
    params.coverage = CpuCoverage::PhysicalCores;
    let physical = build_worker_plan(&params, &cores(4), 2);
    assert_eq!(physical.len(), 2);
    assert_eq!(physical[1].phase, 50_000_000);
    assert_eq!(build_worker_plan(&params, &cores(4), 0).len(), 1);
    assert_eq!(build_worker_plan(&params, &cores(4), 9).len(), 4);
    params.coverage = CpuCoverage::Unpinned;
    let unpinned = build_worker_plan(&params, &cores(3), 8);
    assert_eq!(unpinned.len(), 3);
    assert!(unpinned.iter().all(|plan| plan.core_id.is_none()));
    assert_eq!(unpinned[0].index, 0);
}

#[test]
fn report_counts_joined_workers() {
    let mut report = DisturbanceReport::started(3, 0);
    report.record(Some(WorkerExit { index: 0, affinity_set: true, priority_set: false, iterations: 9 }));
    report.record(None);
    report.record(Some(WorkerExit { index: 2, affinity_set: false, priority_set: true, iterations: 1 }));
    assert_eq!(report.affinity_successes, 1);
    assert_eq!(report.affinity_failures, 1);
    assert_eq!(report.priority_successes, 1);
    assert_eq!(report.priority_failures, 1);
    assert_eq!(report.panics, 1);
    assert_eq!(report.worker_count, 3);
}
