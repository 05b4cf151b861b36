//! Cumulative CPU accounting snapshots and instantaneous usage.
//!
//! A [`CpuStats`] value holds the ten cumulative per-state counters of the
//! kernel's aggregate CPU accounting line. Usage over an interval is derived
//! from two snapshots: the share of the total counter delta that was spent in
//! non-idle states, as a whole percentage clamped to `[0, 100]`.

use vstd::prelude::*;

use crate::bytes::{
    field_value, fields_of, find_line_end, lemma_line_end, line_end, parse_u64_or_zero,
    split_fields,
};

verus! {

/// One snapshot of the kernel's cumulative, host-wide CPU state counters.
#[derive(Clone, Copy, Debug, PartialEq, Eq, Structural)]
pub struct CpuStats {
    pub user: u64,
    pub nice: u64,
    pub system: u64,
    pub idle: u64,
    pub iowait: u64,
    pub irq: u64,
    pub softirq: u64,
    pub steal: u64,
    pub guest: u64,
    pub guest_nice: u64,
}

impl CpuStats {
    /// Sum of all ten counters, as a mathematical integer.
    pub open spec fn total_spec(&self) -> int {
        self.user + self.nice + self.system + self.idle + self.iowait + self.irq + self.softirq
            + self.steal + self.guest + self.guest_nice
    }

    /// Time spent idle or waiting for I/O, as a mathematical integer.
    pub open spec fn idle_total_spec(&self) -> int {
        self.idle + self.iowait
    }

    /// Time spent in any non-idle state, as a mathematical integer.
    pub open spec fn active_total_spec(&self) -> int {
        self.total_spec() - self.idle_total_spec()
    }

    /// The snapshot with every counter zero; the fallback when no snapshot
    /// has been taken yet.
    pub fn zeroed() -> (s: CpuStats)
        ensures
            s.total_spec() == 0,
            s == (CpuStats {
                user: 0u64,
                nice: 0u64,
                system: 0u64,
                idle: 0u64,
                iowait: 0u64,
                irq: 0u64,
                softirq: 0u64,
                steal: 0u64,
                guest: 0u64,
                guest_nice: 0u64,
            }),
    {
        CpuStats {
            user: 0,
            nice: 0,
            system: 0,
            idle: 0,
            iowait: 0,
            irq: 0,
            softirq: 0,
            steal: 0,
            guest: 0,
            guest_nice: 0,
        }
    }

    /// Sum of all ten counters.
    pub fn total(&self) -> (t: u64)
        requires
            self.total_spec() <= u64::MAX,
        ensures
            t == self.total_spec(),
    {
        self.user + self.nice + self.system + self.idle + self.iowait + self.irq + self.softirq
            + self.steal + self.guest + self.guest_nice
    }

    /// Time spent idle or waiting for I/O.
    pub fn idle_total(&self) -> (t: u64)
        requires
            self.idle_total_spec() <= u64::MAX,
        ensures
            t == self.idle_total_spec(),
    {
        self.idle + self.iowait
    }

    /// Time spent in any non-idle state.
    pub fn active_total(&self) -> (t: u64)
        requires
            self.total_spec() <= u64::MAX,
        ensures
            t == self.active_total_spec(),
    {
        self.total() - self.idle_total()
    }
}

/// The CPU usage over the interval between two snapshots, as a whole
/// percentage in `[0, 100]`: the share of the total counter delta spent in
/// non-idle states. A non-positive total delta (first sample, counter wrap)
/// and a negative active delta read as a zero-usage interval; an active
/// delta past the total delta saturates at 100.
pub open spec fn cpu_usage_spec(prev: CpuStats, cur: CpuStats) -> int {
    let total_delta = cur.total_spec() - prev.total_spec();
    let active_delta = cur.active_total_spec() - prev.active_total_spec();
    if total_delta <= 0 {
        0
    } else if active_delta <= 0 {
        0
    } else if active_delta >= total_delta {
        100
    } else {
        100 * active_delta / total_delta
    }
}

/// Whenever the total delta is positive and the counters moved monotonically,
/// usage is exactly `100 * active_delta / total_delta`; whenever the total
/// delta is not positive, usage is zero.
pub proof fn lemma_cpu_usage_quotient(prev: CpuStats, cur: CpuStats)
    ensures
        cur.total_spec() - prev.total_spec() > 0 && 0 <= cur.active_total_spec()
            - prev.active_total_spec() <= cur.total_spec() - prev.total_spec()
            ==> cpu_usage_spec(prev, cur) == 100 * (cur.active_total_spec()
            - prev.active_total_spec()) / (cur.total_spec() - prev.total_spec()),
        cur.total_spec() - prev.total_spec() <= 0 ==> cpu_usage_spec(prev, cur) == 0,
{
    let total_delta = cur.total_spec() - prev.total_spec();
    let active_delta = cur.active_total_spec() - prev.active_total_spec();
    if total_delta > 0 && 0 <= active_delta <= total_delta {
        if active_delta == 0 {
            assert(100 * active_delta == 0);
            assert(100 * active_delta / total_delta == 0) by (nonlinear_arith)
                requires
                    100 * active_delta == 0,
                    total_delta > 0,
            {}
        } else if active_delta == total_delta {
            assert(100 * total_delta / total_delta == 100) by (nonlinear_arith)
                requires
                    total_delta > 0,
            {}
        }
    }
}

/// Computes the usage percentage between two snapshots; see
/// [`cpu_usage_spec`].
pub fn calculate_cpu_usage(prev: &CpuStats, cur: &CpuStats) -> (usage: u64)
    ensures
        usage == cpu_usage_spec(*prev, *cur),
        usage <= 100,
{
    let prev_total = wide_total(prev);
    let cur_total = wide_total(cur);
    let prev_active = wide_active(prev);
    let cur_active = wide_active(cur);
    if cur_total <= prev_total {
        return 0;
    }
    if cur_active <= prev_active {
        return 0;
    }
    let total_delta = cur_total - prev_total;
    let active_delta = cur_active - prev_active;
    if active_delta >= total_delta {
        return 100;
    }
    let q = (100 * active_delta) / total_delta;
    assert(q <= 100) by (nonlinear_arith)
        requires
            q == 100 * (active_delta as int) / (total_delta as int),
            0 < active_delta < total_delta,
    {}
    q as u64
}

/// The total counter sum, widened so that no ten-counter sum can overflow.
fn wide_total(s: &CpuStats) -> (t: u128)
    ensures
        t == s.total_spec(),
{
    s.user as u128 + s.nice as u128 + s.system as u128 + s.idle as u128 + s.iowait as u128
        + s.irq as u128 + s.softirq as u128 + s.steal as u128 + s.guest as u128
        + s.guest_nice as u128
}

/// The active counter sum, widened so that no ten-counter sum can overflow.
fn wide_active(s: &CpuStats) -> (t: u128)
    ensures
        t == s.active_total_spec(),
{
    let total = wide_total(s);
    let idle = s.idle as u128 + s.iowait as u128;
    total - idle
}

/// Whether `s` begins with the aggregate accounting tag: the bytes of
/// `"cpu"` followed by a space.
pub open spec fn line_starts_cpu(s: Seq<u8>) -> bool {
    s.len() >= 4 && s[0] == 99 && s[1] == 112 && s[2] == 117 && s[3] == 32
}

/// The snapshot read off the fields of an accounting line: fields one
/// through nine are the first nine counters, the optional tenth field is
/// `guest_nice`, and a field that does not parse as a number reads as zero.
pub open spec fn stats_of_fields(fs: Seq<Seq<u8>>) -> CpuStats
    recommends
        fs.len() >= 10,
{
    CpuStats {
        user: field_value(fs[1]),
        nice: field_value(fs[2]),
        system: field_value(fs[3]),
        idle: field_value(fs[4]),
        iowait: field_value(fs[5]),
        irq: field_value(fs[6]),
        softirq: field_value(fs[7]),
        steal: field_value(fs[8]),
        guest: field_value(fs[9]),
        guest_nice: if fs.len() >= 11 {
            field_value(fs[10])
        } else {
            0
        },
    }
}

/// The snapshot held by one line: a line yields a snapshot exactly when it
/// begins with the aggregate tag and carries at least nine numeric fields
/// after it.
pub open spec fn parse_cpu_line_spec(s: Seq<u8>) -> Option<CpuStats> {
    if line_starts_cpu(s) && fields_of(s).len() >= 10 {
        Some(stats_of_fields(fields_of(s)))
    } else {
        None
    }
}

/// The snapshot held by a whole accounting text, scanned line by line from
/// position `i`: the first line that yields a snapshot decides.
pub open spec fn parse_cpu_from(s: Seq<u8>, i: int) -> Option<CpuStats>
    decreases s.len() - i,
    via parse_cpu_from_decreases
{
    if i < 0 || i >= s.len() {
        None
    } else {
        let j = line_end(s, i);
        match parse_cpu_line_spec(s.subrange(i, j)) {
            Some(st) => Some(st),
            None => if j >= s.len() {
                None
            } else {
                parse_cpu_from(s, j + 1)
            },
        }
    }
}

#[via_fn]
proof fn parse_cpu_from_decreases(s: Seq<u8>, i: int) {
    if 0 <= i < s.len() {
        lemma_line_end(s, i);
    }
}

/// The snapshot held by a whole accounting text.
pub open spec fn parse_cpu_stats_spec(s: Seq<u8>) -> Option<CpuStats> {
    parse_cpu_from(s, 0)
}

/// Parses one accounting line; see [`parse_cpu_line_spec`].
pub fn parse_cpu_line(line: &[u8]) -> (r: Option<CpuStats>)
    ensures
        r == parse_cpu_line_spec(line@),
{
    if line.len() < 4 || line[0] != 99 || line[1] != 112 || line[2] != 117 || line[3] != 32 {
        return None;
    }
    let fields = split_fields(line);
    if fields.len() < 10 {
        return None;
    }
    Some(
        CpuStats {
            user: parse_u64_or_zero(fields[1].as_slice()),
            nice: parse_u64_or_zero(fields[2].as_slice()),
            system: parse_u64_or_zero(fields[3].as_slice()),
            idle: parse_u64_or_zero(fields[4].as_slice()),
            iowait: parse_u64_or_zero(fields[5].as_slice()),
            irq: parse_u64_or_zero(fields[6].as_slice()),
            softirq: parse_u64_or_zero(fields[7].as_slice()),
            steal: parse_u64_or_zero(fields[8].as_slice()),
            guest: parse_u64_or_zero(fields[9].as_slice()),
            guest_nice: if fields.len() >= 11 {
                parse_u64_or_zero(fields[10].as_slice())
            } else {
                0
            },
        },
    )
}

/// Parses a whole accounting text, taking the snapshot from the first line
/// that begins with the aggregate tag and carries at least nine numeric
/// fields; see [`parse_cpu_stats_spec`]. `None` means no such line exists
/// and the read should be skipped.
pub fn parse_cpu_stats(content: &[u8]) -> (r: Option<CpuStats>)
    ensures
        r == parse_cpu_stats_spec(content@),
{
    let ghost s: Seq<u8> = content@;
    let mut i: usize = 0;
    while i < content.len()
        invariant
            i <= content.len(),
            s == content@,
            parse_cpu_stats_spec(s) == parse_cpu_from(s, i as int),
        decreases content.len() - i,
    {
        let j = find_line_end(content, i);
        let line = vstd::slice::slice_subrange(content, i, j);
        match parse_cpu_line(line) {
            Some(st) => {
                return Some(st);
            },
            None => {
                proof {
                    lemma_line_end(s, i as int);
                }
                if j >= content.len() {
                    return None;
                }
                i = j + 1;
            },
        }
    }
    None
}

} // verus!
