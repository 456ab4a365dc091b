//! The result of one sampling run: the raw series and its statistics.

use vstd::prelude::*;

use crate::series::{lemma_peak_at_least_mean, lemma_total_bounds, lemma_quotient_bound};
use crate::series::{all_equal, maximum, mean, peak, total};

verus! {

/// Memory figures of one observation, in bytes.
#[derive(Clone, Copy, Debug, PartialEq, Eq, Structural)]
pub struct MemorySample {
    pub rss: u64,
    pub vms: u64,
    pub shared: u64,
}

/// Which of the memory figures a statistic is about.
#[derive(Clone, Copy, Debug, PartialEq, Eq, Structural)]
pub enum MemoryKind {
    Rss,
    Vms,
    Shared,
}

pub open spec fn figure(m: MemorySample, k: MemoryKind) -> u64 {
    match k {
        MemoryKind::Rss => m.rss,
        MemoryKind::Vms => m.vms,
        MemoryKind::Shared => m.shared,
    }
}

fn figure_of(m: &MemorySample, k: MemoryKind) -> (r: u64)
    ensures
        r == figure(*m, k),
{
    match k {
        MemoryKind::Rss => m.rss,
        MemoryKind::Vms => m.vms,
        MemoryKind::Shared => m.shared,
    }
}

/// A finished run. Times are nanoseconds on a monotonic clock; CPU usage
/// is in hundredths of a percent, one entry per observation, in the order
/// the observations were taken.
#[derive(Debug)]
pub struct Report {
    pub time_start: u64,
    pub time_end: u64,
    pub memory: Vec<MemorySample>,
    pub cpu: Vec<u64>,
}

impl Report {
    /// The run ends no earlier than it starts, and every observation
    /// holds both a memory and a CPU figure.
    pub open spec fn wf(&self) -> bool {
        &&& self.time_start <= self.time_end
        &&& self.memory@.len() == self.cpu@.len()
    }

    /// The series of one memory figure, in observation order.
    pub open spec fn memory_series(&self, k: MemoryKind) -> Seq<u64> {
        self.memory@.map_values(|m: MemorySample| figure(m, k))
    }

    pub open spec fn cpu_series(&self) -> Seq<u64> {
        self.cpu@
    }

    /// Builds a report from (memory, cpu) observations in the order taken.
    pub fn new(records: Vec<(MemorySample, u64)>, time_start: u64, time_end: u64) -> (r: Self)
        requires
            time_start <= time_end,
        ensures
            r.wf(),
            r.time_start == time_start,
            r.time_end == time_end,
            r.memory@ == records@.map_values(|p: (MemorySample, u64)| p.0),
            r.cpu@ == records@.map_values(|p: (MemorySample, u64)| p.1),
            r.memory@.len() == records@.len(),
            r.cpu@.len() == records@.len(),
            forall|i: int|
                0 <= i < records@.len() ==> r.memory@[i] == records@[i].0 && r.cpu@[i]
                    == records@[i].1,
    {
        let mut memory: Vec<MemorySample> = Vec::new();
        let mut cpu: Vec<u64> = Vec::new();
        let mut i: usize = 0;
        while i < records.len()
            invariant
                i <= records@.len(),
                memory@ == records@.subrange(0, i as int).map_values(|p: (MemorySample, u64)| p.0),
                cpu@ == records@.subrange(0, i as int).map_values(|p: (MemorySample, u64)| p.1),
            decreases records@.len() - i,
        {
            let (m, c) = records[i];
            memory.push(m);
            cpu.push(c);
            i = i + 1;
            assert(memory@ =~= records@.subrange(0, i as int).map_values(|p: (MemorySample, u64)| p.0));
            assert(cpu@ =~= records@.subrange(0, i as int).map_values(|p: (MemorySample, u64)| p.1));
        }
        assert(records@.subrange(0, i as int) =~= records@);
        Report { time_start, time_end, memory, cpu }
    }

    /// Elapsed time of the run, in nanoseconds.
    pub fn duration_nanos(&self) -> (r: u64)
        requires
            self.wf(),
        ensures
            r == self.time_end - self.time_start,
    {
        self.time_end - self.time_start
    }

    fn memory_total(&self, k: MemoryKind) -> (r: u128)
        ensures
            r == total(self.memory_series(k)),
    {
        let ghost s = self.memory_series(k);
        let mut sum: u128 = 0;
        let mut i: usize = 0;
        while i < self.memory.len()
            invariant
                i <= self.memory@.len(),
                s == self.memory_series(k),
                s.len() == self.memory@.len(),
                sum == total(s.subrange(0, i as int)),
            decreases self.memory@.len() - i,
        {
            let x = figure_of(&self.memory[i], k);
            proof {
                let next = s.subrange(0, i + 1);
                assert(next.drop_last() =~= s.subrange(0, i as int));
                lemma_total_bounds(next);
                assert(next.len() * (u64::MAX as int) <= u128::MAX) by (nonlinear_arith)
                    requires
                        next.len() <= usize::MAX,
                ;
            }
            sum = sum + x as u128;
            i = i + 1;
        }
        assert(s.subrange(0, i as int) =~= s);
        sum
    }

    fn memory_peak(&self, k: MemoryKind) -> (r: u64)
        ensures
            r == peak(self.memory_series(k)),
    {
        let ghost s = self.memory_series(k);
        let mut best: u64 = 0;
        let mut i: usize = 0;
        while i < self.memory.len()
            invariant
                i <= self.memory@.len(),
                s == self.memory_series(k),
                s.len() == self.memory@.len(),
                best == peak(s.subrange(0, i as int)),
            decreases self.memory@.len() - i,
        {
            let x = figure_of(&self.memory[i], k);
            proof {
                assert(s.subrange(0, i + 1).drop_last() =~= s.subrange(0, i as int));
            }
            if x > best {
                best = x;
            }
            i = i + 1;
        }
        assert(s.subrange(0, i as int) =~= s);
        best
    }

    fn memory_mean(&self, k: MemoryKind) -> (r: Option<u64>)
        ensures
            r == mean(self.memory_series(k)),
    {
        if self.memory.len() == 0 {
            return None;
        }
        let sum = self.memory_total(k);
        let n = self.memory.len() as u128;
        proof {
            lemma_total_bounds(self.memory_series(k));
            lemma_quotient_bound(sum as int, n as int, u64::MAX as int);
        }
        Some((sum / n) as u64)
    }

    fn memory_maximum(&self, k: MemoryKind) -> (r: Option<u64>)
        ensures
            r == maximum(self.memory_series(k)),
    {
        if self.memory.len() == 0 {
            None
        } else {
            Some(self.memory_peak(k))
        }
    }

    /// Highest CPU usage observed; 0 when nothing was observed.
    pub fn max_cpu_percentage(&self) -> (r: u64)
        ensures
            r == peak(self.cpu_series()),
            self.cpu@.len() == 0 ==> r == 0,
    {
        let ghost s = self.cpu_series();
        let mut best: u64 = 0;
        let mut i: usize = 0;
        while i < self.cpu.len()
            invariant
                i <= s.len(),
                s == self.cpu@,
                best == peak(s.subrange(0, i as int)),
            decreases s.len() - i,
        {
            let x = self.cpu[i];
            proof {
                assert(s.subrange(0, i + 1).drop_last() =~= s.subrange(0, i as int));
            }
            if x > best {
                best = x;
            }
            i = i + 1;
        }
        assert(s.subrange(0, i as int) =~= s);
        best
    }

    /// Truncating mean CPU usage; absent when nothing was observed.
    pub fn mean_cpu_percentage(&self) -> (r: Option<u64>)
        ensures
            r == mean(self.cpu_series()),
            r is None <==> self.cpu@.len() == 0,
    {
        let ghost s = self.cpu_series();
        if self.cpu.len() == 0 {
            return None;
        }
        let mut sum: u128 = 0;
        let mut i: usize = 0;
        while i < self.cpu.len()
            invariant
                i <= s.len(),
                s == self.cpu@,
                sum == total(s.subrange(0, i as int)),
            decreases s.len() - i,
        {
            let x = self.cpu[i];
            proof {
                let next = s.subrange(0, i + 1);
                assert(next.drop_last() =~= s.subrange(0, i as int));
                lemma_total_bounds(next);
                assert(next.len() * (u64::MAX as int) <= u128::MAX) by (nonlinear_arith)
                    requires
                        next.len() <= usize::MAX,
                ;
            }
            sum = sum + x as u128;
            i = i + 1;
        }
        assert(s.subrange(0, i as int) =~= s);
        let n = self.cpu.len() as u128;
        proof {
            lemma_total_bounds(s);
            lemma_quotient_bound(sum as int, n as int, u64::MAX as int);
        }
        Some((sum / n) as u64)
    }

    pub fn max_shared_memory(&self) -> (r: Option<u64>)
        ensures
            r == maximum(self.memory_series(MemoryKind::Shared)),
            r is None <==> self.memory@.len() == 0,
    {
        self.memory_maximum(MemoryKind::Shared)
    }

    pub fn mean_shared_memory(&self) -> (r: Option<u64>)
        ensures
            r == mean(self.memory_series(MemoryKind::Shared)),
            r is None <==> self.memory@.len() == 0,
    {
        self.memory_mean(MemoryKind::Shared)
    }

    pub fn max_rss_memory(&self) -> (r: Option<u64>)
        ensures
            r == maximum(self.memory_series(MemoryKind::Rss)),
            r is None <==> self.memory@.len() == 0,
    {
        self.memory_maximum(MemoryKind::Rss)
    }

    pub fn mean_rss_memory(&self) -> (r: Option<u64>)
        ensures
            r == mean(self.memory_series(MemoryKind::Rss)),
            r is None <==> self.memory@.len() == 0,
    {
        self.memory_mean(MemoryKind::Rss)
    }

    pub fn max_vms_memory(&self) -> (r: Option<u64>)
        ensures
            r == maximum(self.memory_series(MemoryKind::Vms)),
            r is None <==> self.memory@.len() == 0,
    {
        self.memory_maximum(MemoryKind::Vms)
    }

    pub fn mean_vms_memory(&self) -> (r: Option<u64>)
        ensures
            r == mean(self.memory_series(MemoryKind::Vms)),
            r is None <==> self.memory@.len() == 0,
    {
        self.memory_mean(MemoryKind::Vms)
    }
}

/// In a report with observations, the peak of each memory figure is at
/// least its mean, equals it where all observations agree, and is above it
/// where they do not.
pub proof fn lemma_memory_peak_at_least_mean(r: &Report, k: MemoryKind)
    requires
        r.memory@.len() > 0,
    ensures
        mean(r.memory_series(k)) matches Some(m) && maximum(r.memory_series(k)) matches Some(p)
            && m <= p,
        all_equal(r.memory_series(k)) ==> mean(r.memory_series(k)) == maximum(r.memory_series(k)),
        !all_equal(r.memory_series(k)) ==> (mean(r.memory_series(k)) matches Some(m)
            && maximum(r.memory_series(k)) matches Some(p) && m < p),
{
    lemma_peak_at_least_mean(r.memory_series(k));
}

/// In a report with observations, the peak CPU usage is at least the mean,
/// equals it where all observations agree, and is above it where they do not.
pub proof fn lemma_cpu_peak_at_least_mean(r: &Report)
    requires
        r.cpu@.len() > 0,
    ensures
        mean(r.cpu_series()) matches Some(m) && m <= peak(r.cpu_series()),
        all_equal(r.cpu_series()) ==> mean(r.cpu_series()) == Some(peak(r.cpu_series())),
        !all_equal(r.cpu_series()) ==> (mean(r.cpu_series()) matches Some(m) && m < peak(
            r.cpu_series(),
        )),
{
    lemma_peak_at_least_mean(r.cpu_series());
}

/// The statistics of a report are fixed by its series alone: two reports
/// with the same observations, or one report read twice, give the same
/// means and peaks.
pub proof fn lemma_statistics_depend_on_series(a: &Report, b: &Report, k: MemoryKind)
    requires
        a.memory@ == b.memory@,
        a.cpu@ == b.cpu@,
    ensures
        mean(a.memory_series(k)) == mean(b.memory_series(k)),
        maximum(a.memory_series(k)) == maximum(b.memory_series(k)),
        mean(a.cpu_series()) == mean(b.cpu_series()),
        peak(a.cpu_series()) == peak(b.cpu_series()),
{
}

/// A report built from observations gives each of them back, in order and
/// unchanged: the i-th memory figures and CPU usage are those of the i-th
/// observation.
pub proof fn lemma_series_round_trip(records: Seq<(MemorySample, u64)>, r: &Report, i: int)
    requires
        r.memory@ == records.map_values(|p: (MemorySample, u64)| p.0),
        r.cpu@ == records.map_values(|p: (MemorySample, u64)| p.1),
        0 <= i < records.len(),
    ensures
        r.memory@.len() == records.len(),
        r.cpu@.len() == records.len(),
        r.memory_series(MemoryKind::Rss)[i] == records[i].0.rss,
        r.memory_series(MemoryKind::Vms)[i] == records[i].0.vms,
        r.memory_series(MemoryKind::Shared)[i] == records[i].0.shared,
        r.cpu_series()[i] == records[i].1,
{
}

} // verus!
