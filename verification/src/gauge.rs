use vstd::prelude::*;
use crate::task::CPU_LIMIT;

verus! {

/// The two counters that workers update when a task starts and ends: the CPU
/// budget in use and the number of busy workers. Like the atomic counters
/// they stand for, both wrap around on overflow.
pub struct CpuGauge {
    current_cpu: usize,
    workers_active: usize,
}

impl CpuGauge {
    /// The CPU budget in use.
    pub closed spec fn cpu_in_use(self) -> usize {
        self.current_cpu
    }

    /// The number of busy workers.
    pub closed spec fn active_workers(self) -> usize {
        self.workers_active
    }

    /// The gauge after a task of cost `cost` starts.
    pub closed spec fn acquired(self, cost: usize) -> CpuGauge {
        CpuGauge {
            current_cpu: vstd::wrapping::usize_specs::wrapping_add(self.current_cpu, cost),
            workers_active: vstd::wrapping::usize_specs::wrapping_add(self.workers_active, 1),
        }
    }

    /// The gauge after a task of cost `cost` ends.
    pub closed spec fn released(self, cost: usize) -> CpuGauge {
        CpuGauge {
            current_cpu: vstd::wrapping::usize_specs::wrapping_sub(self.current_cpu, cost),
            workers_active: vstd::wrapping::usize_specs::wrapping_sub(self.workers_active, 1),
        }
    }

    /// Whether a task of cost `cost` may start now without exceeding the
    /// CPU budget.
    pub open spec fn admits_spec(self, cost: usize) -> bool {
        self.cpu_in_use() + cost <= CPU_LIMIT
    }

    /// Nothing in use, no worker busy.
    pub fn new() -> (g: Self)
        ensures
            g.cpu_in_use() == 0,
            g.active_workers() == 0,
    {
        CpuGauge { current_cpu: 0, workers_active: 0 }
    }

    /// The CPU budget in use.
    pub fn current_cpu(&self) -> (c: usize)
        ensures
            c == self.cpu_in_use(),
    {
        self.current_cpu
    }

    /// The number of busy workers.
    pub fn workers_active(&self) -> (w: usize)
        ensures
            w == self.active_workers(),
    {
        self.workers_active
    }

    /// Whether a task of cost `cost` may start now without exceeding the
    /// CPU budget.
    pub fn admits(&self, cost: usize) -> (b: bool)
        ensures
            b == self.admits_spec(cost),
    {
        self.current_cpu <= CPU_LIMIT && cost <= CPU_LIMIT - self.current_cpu
    }

    /// Charges a starting task: adds its cost to the budget in use and counts
    /// one more busy worker.
    pub fn acquire(&mut self, cost: usize)
        ensures
            *final(self) == old(self).acquired(cost),
            final(self).cpu_in_use() == vstd::wrapping::usize_specs::wrapping_add(
                old(self).cpu_in_use(),
                cost,
            ),
            final(self).active_workers() == vstd::wrapping::usize_specs::wrapping_add(
                old(self).active_workers(),
                1,
            ),
    {
        self.current_cpu = self.current_cpu.wrapping_add(cost);
        self.workers_active = self.workers_active.wrapping_add(1);
    }

    /// Releases an ending task: takes its cost back from the budget in use
    /// and counts one busy worker fewer.
    pub fn release(&mut self, cost: usize)
        ensures
            *final(self) == old(self).released(cost),
            final(self).cpu_in_use() == vstd::wrapping::usize_specs::wrapping_sub(
                old(self).cpu_in_use(),
                cost,
            ),
            final(self).active_workers() == vstd::wrapping::usize_specs::wrapping_sub(
                old(self).active_workers(),
                1,
            ),
    {
        self.current_cpu = self.current_cpu.wrapping_sub(cost);
        self.workers_active = self.workers_active.wrapping_sub(1);
    }

    /// Starts a task of cost `cost` if the budget admits it; otherwise leaves
    /// the gauge as it was. Returns whether the task started.
    pub fn try_acquire(&mut self, cost: usize) -> (started: bool)
        ensures
            started == old(self).admits_spec(cost),
            started ==> *final(self) == old(self).acquired(cost),
            started ==> final(self).cpu_in_use() == old(self).cpu_in_use() + cost,
            !started ==> *final(self) == *old(self),
            old(self).cpu_in_use() <= CPU_LIMIT ==> final(self).cpu_in_use() <= CPU_LIMIT,
    {
        if self.admits(cost) {
            self.acquire(cost);
            true
        } else {
            false
        }
    }
}

/// Ending a task undoes starting it: releasing the cost that was acquired
/// gives back the gauge exactly as it was, whatever its counters held.
pub proof fn lemma_release_undoes_acquire(g: CpuGauge, cost: usize)
    ensures
        g.acquired(cost).released(cost) == g,
{
}

/// Starting a task undoes ending it: acquiring the cost that was released
/// gives back the gauge exactly as it was.
pub proof fn lemma_acquire_undoes_release(g: CpuGauge, cost: usize)
    ensures
        g.released(cost).acquired(cost) == g,
{
}

/// Admission is exactly the budget test: a task may start precisely when its
/// cost added to the budget in use stays within the limit, however many
/// workers are busy; two gauges with the same budget in use admit the same
/// tasks.
pub proof fn lemma_admission_is_budget_test(g: CpuGauge, h: CpuGauge, cost: usize)
    ensures
        g.admits_spec(cost) <==> g.cpu_in_use() + cost <= CPU_LIMIT,
        g.cpu_in_use() == h.cpu_in_use() ==> (g.admits_spec(cost) <==> h.admits_spec(cost)),
        g.cpu_in_use() + cost <= CPU_LIMIT ==> g.acquired(cost).cpu_in_use() == g.cpu_in_use()
            + cost && g.acquired(cost).active_workers() == if g.active_workers() < usize::MAX {
            g.active_workers() + 1
        } else {
            0
        },
{
}

/// Ending a task that is counted gives its cost back: with at least `cost`
/// in use and a busy worker, releasing takes exactly `cost` off the budget
/// and one worker off the busy count; starting one that fits adds exactly
/// its cost and one worker.
pub proof fn lemma_release_returns_cost(g: CpuGauge, cost: usize)
    ensures
        cost <= g.cpu_in_use() && g.active_workers() >= 1 ==> {
            &&& g.released(cost).cpu_in_use() == g.cpu_in_use() - cost
            &&& g.released(cost).active_workers() == g.active_workers() - 1
        },
        g.cpu_in_use() + cost <= usize::MAX && g.active_workers() < usize::MAX ==> {
            &&& g.acquired(cost).cpu_in_use() == g.cpu_in_use() + cost
            &&& g.acquired(cost).active_workers() == g.active_workers() + 1
        },
{
}

/// Admission keeps the budget: a gauge within the CPU limit that acquires
/// only what it admits stays within the limit.
pub proof fn lemma_admitted_acquire_within_limit(g: CpuGauge, cost: usize)
    requires
        g.admits_spec(cost),
    ensures
        g.acquired(cost).cpu_in_use() == g.cpu_in_use() + cost,
        g.acquired(cost).cpu_in_use() <= CPU_LIMIT,
{
}

} // verus!
