//! The three sampling computations: logical processor count, available-memory
//! ratio, and two-snapshot CPU utilization.
//!
//! Every failure of a host query degrades to the zero reading rather than
//! surfacing an error: the caller-facing interface has no error channel, so a
//! failed query and a legitimately zero reading are indistinguishable by
//! design. Divisors of zero are guarded the same way.

use vstd::prelude::*;

use crate::ratio::Ratio;

verus! {

/// Cumulative per-state CPU time counters, in a monotonically non-decreasing
/// tick unit since boot. In this counter family the kernel time already
/// subsumes the idle time, so busy-plus-idle work over a window is the kernel
/// delta plus the user delta.
#[derive(Clone, Copy, Debug, PartialEq, Eq, Structural)]
pub struct CpuTimeSnapshot {
    pub idle: u64,
    pub kernel: u64,
    pub user: u64,
}

/// One atomic host memory reading: both values come from the same underlying
/// query, so they are mutually consistent at one instant.
#[derive(Clone, Copy, Debug, PartialEq, Eq, Structural)]
pub struct MemoryStatus {
    pub available: u64,
    pub total: u64,
}

/// The growth of a cumulative counter between two readings, clamped at zero:
/// a non-monotonic host counter is tolerated, never a fault.
pub open spec fn counter_delta(earlier: u64, later: u64) -> int {
    if later >= earlier {
        later - earlier
    } else {
        0
    }
}

/// A sum of two counter deltas, saturating at the largest counter value
/// rather than faulting.
pub open spec fn capped_sum(a: int, b: int) -> int {
    if a + b > u64::MAX {
        u64::MAX as int
    } else {
        a + b
    }
}

/// The non-idle share of a total delta, clamped at zero.
pub open spec fn busy_delta(d_total: int, d_idle: int) -> int {
    if d_total >= d_idle {
        d_total - d_idle
    } else {
        0
    }
}

/// The utilization reading derived from two snapshots: the non-idle fraction
/// of the elapsed counter time, or the zero reading when no time elapsed.
pub open spec fn spec_cpu_utilization(s0: CpuTimeSnapshot, s1: CpuTimeSnapshot) -> Ratio {
    let d_idle = counter_delta(s0.idle, s1.idle);
    let d_kernel = counter_delta(s0.kernel, s1.kernel);
    let d_user = counter_delta(s0.user, s1.user);
    let d_total = capped_sum(d_kernel, d_user);
    if d_total == 0 {
        Ratio::spec_zero()
    } else {
        Ratio { num: busy_delta(d_total, d_idle) as u64, den: d_total as u64 }
    }
}

/// The memory reading derived from one host query outcome: available over
/// total, or the zero reading when the query failed or the total is zero.
pub open spec fn spec_available_memory_ratio(status: Option<MemoryStatus>) -> Ratio {
    match status {
        None => Ratio::spec_zero(),
        Some(m) => if m.total == 0 {
            Ratio::spec_zero()
        } else {
            Ratio { num: m.available, den: m.total }
        },
    }
}

/// Reports the logical processor count exactly as the host reported it:
/// no clamping and no validation, a report of zero passes through.
pub fn logical_processor_count(reported: u32) -> (r: u32)
    ensures
        r == reported,
{
    reported
}

/// Computes available over total physical memory from one host query
/// outcome. A failed query (`None`) and a reported total of zero both
/// degrade to the zero reading instead of faulting.
pub fn available_memory_ratio(status: Option<MemoryStatus>) -> (r: Ratio)
    ensures
        r == spec_available_memory_ratio(status),
        r.wf(),
        status is None ==> r == Ratio::spec_zero(),
        status matches Some(m) ==> if m.total == 0 {
            r == Ratio::spec_zero()
        } else {
            r.num == m.available && r.den == m.total
        },
{
    match status {
        None => Ratio::zero(),
        Some(m) => {
            if m.total == 0 {
                Ratio::zero()
            } else {
                Ratio { num: m.available, den: m.total }
            }
        },
    }
}

/// Computes the CPU utilization over the window between two snapshots: the
/// fraction of elapsed counter time that was not idle. Deltas of a
/// non-monotonic counter clamp at zero and their sum saturates, so the
/// result always lies in the unit interval; a window in which no counter
/// time elapsed yields the zero reading rather than a division by zero.
pub fn cpu_utilization_between(s0: &CpuTimeSnapshot, s1: &CpuTimeSnapshot) -> (r: Ratio)
    ensures
        r == spec_cpu_utilization(*s0, *s1),
        r.wf(),
        r.num <= r.den,
{
    let d_idle: u64 = if s1.idle >= s0.idle {
        s1.idle - s0.idle
    } else {
        0
    };
    let d_kernel: u64 = if s1.kernel >= s0.kernel {
        s1.kernel - s0.kernel
    } else {
        0
    };
    let d_user: u64 = if s1.user >= s0.user {
        s1.user - s0.user
    } else {
        0
    };
    let d_total: u64 = if d_kernel <= u64::MAX - d_user {
        d_kernel + d_user
    } else {
        u64::MAX
    };
    if d_total == 0 {
        Ratio::zero()
    } else {
        let busy: u64 = if d_total >= d_idle {
            d_total - d_idle
        } else {
            0
        };
        Ratio { num: busy, den: d_total }
    }
}

/// The full utilization operation over one observation window, including the
/// degrade-on-failure policy: if either snapshot query failed, the window was
/// not observed and the reading is zero.
pub fn cpu_utilization(s0: Option<CpuTimeSnapshot>, s1: Option<CpuTimeSnapshot>) -> (r: Ratio)
    ensures
        s0 is None || s1 is None ==> r == Ratio::spec_zero(),
        s0 matches Some(a) ==> (s1 matches Some(b) ==> r == spec_cpu_utilization(a, b)),
        r.wf(),
        r.num <= r.den,
{
    match (s0, s1) {
        (Some(a), Some(b)) => cpu_utilization_between(&a, &b),
        _ => Ratio::zero(),
    }
}

/// Reassembles one 64-bit cumulative counter from the two 32-bit halves in
/// which the host reports it.
pub fn filetime_to_u64(low: u32, high: u32) -> (r: u64)
    ensures
        r == (high as int) * 0x1_0000_0000 + (low as int),
{
    proof {
        assert(((high as u64) << 32u64) | (low as u64)
            == (high as u64) * 0x1_0000_0000 + (low as u64)) by (bit_vector);
    }
    ((high as u64) << 32u64) | (low as u64)
}

/// Law: the utilization reading always lies in the unit interval. For every
/// snapshot pair, including one with non-monotonic counters, the numerator
/// never exceeds the positive denominator.
pub proof fn lemma_cpu_utilization_in_unit_interval(s0: CpuTimeSnapshot, s1: CpuTimeSnapshot)
    ensures
        spec_cpu_utilization(s0, s1).wf(),
        spec_cpu_utilization(s0, s1).num <= spec_cpu_utilization(s0, s1).den,
{
}

/// Law: two identical snapshots give exactly the zero reading. All deltas
/// are zero, so the degenerate-division guard applies and nothing faults.
pub proof fn lemma_identical_snapshots_give_zero(s: CpuTimeSnapshot)
    ensures
        spec_cpu_utilization(s, s) == Ratio::spec_zero(),
{
}

/// Law: a memory reading with a reported total of zero is exactly the zero
/// reading for every reported availability, never a division by zero.
pub proof fn lemma_zero_total_gives_zero(available: u64)
    ensures
        spec_available_memory_ratio(Some(MemoryStatus { available, total: 0 }))
            == Ratio::spec_zero(),
{
}

} // verus!
