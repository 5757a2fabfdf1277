//! Worker plans: how many workers, where each is pinned, and its phase.

use vstd::prelude::*;
use crate::config::{CpuCoverage, DisturbanceParams};

verus! {

/// The plan of one worker. `phase` is the worker's start delay within the
/// period, in nanoseconds.
#[derive(Debug, Clone, Copy, PartialEq, Eq)]
pub struct WorkerPlan {
    pub index: usize,
    pub core_id: Option<core_affinity::CoreId>,
    pub phase: u64,
}

/// `period * index / worker_count` nanoseconds, the product saturating at
/// `u128::MAX`, the quotient truncated to 64 bits; zero without workers.
pub open spec fn spec_phase_offset(index: int, worker_count: int, period: int) -> u64 {
    if worker_count == 0 {
        0
    } else {
        let product = if period * index <= u128::MAX { period * index } else { u128::MAX as int };
        (product / worker_count) as u64
    }
}

/// The start delay of worker `index` of `worker_count`, spreading the workers
/// evenly over a period of `period` nanoseconds.
pub fn phase_offset(index: usize, worker_count: usize, period: u128) -> (phase: u64)
    ensures
        phase == spec_phase_offset(index as int, worker_count as int, period as int),
{
    if worker_count == 0 {
        return 0;
    }
    let product: u128 = match period.checked_mul(index as u128) {
        Some(value) => value,
        None => u128::MAX,
    };
    let quotient: u128 = product / (worker_count as u128);
    quotient as u64
}

/// How many workers a session runs with `logical` logical processors.
pub open spec fn worker_count(coverage: CpuCoverage, logical: int, physical: int) -> int {
    match coverage {
        CpuCoverage::PhysicalCores => if physical < 1 { 1 } else if physical > logical { logical } else { physical },
        _ => logical,
    }
}

/// The plan of worker `index` of `count`.
pub open spec fn planned_worker(params: DisturbanceParams, cores: Seq<core_affinity::CoreId>, count: int, index: int) -> WorkerPlan {
    WorkerPlan {
        index: index as usize,
        core_id: if params.coverage != CpuCoverage::Unpinned { Some(cores[index]) } else { None },
        phase: spec_phase_offset(index, count, params.period_ms * 1_000_000),
    }
}

/// One plan per worker, in index order.
pub fn build_worker_plan(
    params: &DisturbanceParams,
    logical_cores: &[core_affinity::CoreId],
    physical_core_count: usize,
) -> (plans: Vec<WorkerPlan>)
    requires
        params.coverage == CpuCoverage::PhysicalCores ==> logical_cores@.len() >= 1,
    ensures
        plans@.len() == worker_count(params.coverage, logical_cores@.len() as int, physical_core_count as int),
        params.coverage != CpuCoverage::PhysicalCores ==> plans@.len() == logical_cores@.len(),
        params.coverage == CpuCoverage::PhysicalCores ==> {
            &&& 1 <= plans@.len() <= logical_cores@.len()
            &&& plans@.len() <= physical_core_count || plans@.len() == 1
            &&& (1 <= physical_core_count <= logical_cores@.len() ==> plans@.len() == physical_core_count)
        },
        forall|i: int| 0 <= i < plans@.len() ==>
            #[trigger] plans@[i] == planned_worker(*params, logical_cores@, plans@.len() as int, i),
{
    let len = logical_cores.len();
    let count: usize = match params.coverage {
        CpuCoverage::PhysicalCores => {
            if physical_core_count < 1 {
                1
            } else if physical_core_count > len {
                len
            } else {
                physical_core_count
            }
        },
        _ => len,
    };
    let period: u128 = (params.period_ms as u128) * 1_000_000;
    let mut plans: Vec<WorkerPlan> = Vec::new();
    let mut index: usize = 0;
    while index < count
        invariant
            count <= len,
            len == logical_cores@.len(),
            period == params.period_ms * 1_000_000,
            index <= count,
            plans@.len() == index,
            forall|i: int| 0 <= i < index ==>
                #[trigger] plans@[i] == planned_worker(*params, logical_cores@, count as int, i),
        decreases count - index,
    {
        let core_id = if params.coverage != CpuCoverage::Unpinned {
            Some(logical_cores[index])
        } else {
            None
        };
        plans.push(WorkerPlan { index, core_id, phase: phase_offset(index, count, period) });
        index = index + 1;
    }
    plans
}

/// How many workers a session runs: one per logical processor unless the
/// coverage is `PhysicalCores`, which runs one per physical core, at least
/// one and never more than there are logical processors.
pub proof fn worker_count_by_coverage(coverage: CpuCoverage, logical: int, physical: int)
    requires
        logical >= 1,
    ensures
        coverage != CpuCoverage::PhysicalCores ==> worker_count(coverage, logical, physical) == logical,
        coverage == CpuCoverage::PhysicalCores ==> {
            &&& 1 <= worker_count(coverage, logical, physical) <= logical
            &&& (1 <= physical <= logical ==> worker_count(coverage, logical, physical) == physical)
            &&& (physical > logical ==> worker_count(coverage, logical, physical) == logical)
            &&& (physical < 1 ==> worker_count(coverage, logical, physical) == 1)
        },
{
}

/// Every planned worker is pinned to the logical processor of its own index,
/// except under `Unpinned` coverage, where none is pinned.
pub proof fn workers_are_pinned_by_index(params: DisturbanceParams, cores: Seq<core_affinity::CoreId>, count: int, index: int)
    ensures
        planned_worker(params, cores, count, index).index == index as usize,
        params.coverage == CpuCoverage::Unpinned ==> planned_worker(params, cores, count, index).core_id is None,
        params.coverage != CpuCoverage::Unpinned ==> planned_worker(params, cores, count, index).core_id == Some(cores[index]),
{
}

/// Workers are staggered evenly: worker `i` of `n` starts `i/n` of the way
/// into the period, and the phases never decrease with the index nor reach
/// the period.
pub proof fn phases_are_evenly_staggered(i: int, j: int, n: int, period: int)
    requires
        0 <= i <= j < n,
        0 <= period,
        period * n <= u64::MAX,
    ensures
        spec_phase_offset(i, n, period) == period * i / n,
        spec_phase_offset(i, n, period) <= spec_phase_offset(j, n, period),
        spec_phase_offset(j, n, period) < period || period == 0,
{
    assert(period * i <= period * j) by (nonlinear_arith)
        requires 0 <= i <= j, 0 <= period;
    assert(period * j <= period * n) by (nonlinear_arith)
        requires 0 <= j < n, 0 <= period;
    assert(period * j / n <= period * j) by (nonlinear_arith)
        requires 0 <= period * j, 1 <= n;
    assert(period * i / n <= period * j / n) by (nonlinear_arith)
        requires 0 <= period * i <= period * j, 1 <= n;
    assert(period > 0 ==> period * j / n < period) by (nonlinear_arith)
        requires 0 <= j < n, 0 <= period;
    assert(period * i / n <= u64::MAX);
    assert(period * j / n <= u64::MAX);
}

} // verus!
