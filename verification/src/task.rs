use vstd::prelude::*;

verus! {

/// Number of tasks a simulation run generates.
pub const TOTAL_TASKS: usize = 1000;

/// Size of the worker pool.
pub const WORKERS: usize = 8;

/// CPU budget (in percent) that running tasks may use together.
pub const CPU_LIMIT: usize = 100;

/// CPU cost charged for an IO-bound task.
pub const IO_TASK_COST: usize = 10;

/// CPU cost charged for a CPU-bound task.
pub const CPU_TASK_COST: usize = 35;

/// Whether a task mostly computes or mostly waits on IO.
#[derive(Clone, Copy, Debug, PartialEq, Eq, Structural)]
pub enum TaskKind {
    CPU,
    IO,
}

/// A unit of simulated work. Times are milliseconds on one clock chosen by
/// the caller (the simulation uses milliseconds since its start).
#[derive(Clone, Copy, Debug)]
pub struct Task {
    pub id: usize,
    pub kind: TaskKind,
    pub duration_ms: u64,
    pub cpu_cost: usize,
    pub arrival_ms: u64,
    pub start_ms: Option<u64>,
    pub finish_ms: Option<u64>,
}

/// Time from `from` to `to`, or zero when `to` is earlier (a duration never
/// goes negative).
pub open spec fn elapsed_ms(from: u64, to: u64) -> nat {
    if from <= to {
        (to - from) as nat
    } else {
        0
    }
}

/// Elapsed time is plain subtraction: measured forward it is exactly the
/// difference of the two readings, measured backward it is zero, and the
/// time over two consecutive stretches is the sum of the two.
pub proof fn lemma_elapsed_is_difference(from: u64, mid: u64, to: u64)
    ensures
        from <= to ==> elapsed_ms(from, to) + from == to,
        to < from ==> elapsed_ms(from, to) == 0,
        elapsed_ms(from, from) == 0,
        from <= mid <= to ==> elapsed_ms(from, to) == elapsed_ms(from, mid) + elapsed_ms(mid, to),
        from <= mid <= to ==> elapsed_ms(from, mid) <= elapsed_ms(from, to),
{
}

impl Task {
    /// Records that the task starts at `now_ms` and returns how long it waited
    /// since its arrival.
    pub fn mark_started(&mut self, now_ms: u64) -> (wait: u128)
        ensures
            final(self).start_ms == Some(now_ms),
            final(self).id == old(self).id,
            final(self).kind == old(self).kind,
            final(self).duration_ms == old(self).duration_ms,
            final(self).cpu_cost == old(self).cpu_cost,
            final(self).arrival_ms == old(self).arrival_ms,
            final(self).finish_ms == old(self).finish_ms,
            wait == elapsed_ms(old(self).arrival_ms, now_ms),
    {
        self.start_ms = Some(now_ms);
        let wait: u64 = now_ms.saturating_sub(self.arrival_ms);
        wait as u128
    }

    /// Records that the task finishes at `now_ms` and returns its turnaround:
    /// the time from its arrival to its end.
    pub fn mark_finished(&mut self, now_ms: u64) -> (turnaround: u128)
        ensures
            final(self).finish_ms == Some(now_ms),
            final(self).id == old(self).id,
            final(self).kind == old(self).kind,
            final(self).duration_ms == old(self).duration_ms,
            final(self).cpu_cost == old(self).cpu_cost,
            final(self).arrival_ms == old(self).arrival_ms,
            final(self).start_ms == old(self).start_ms,
            turnaround == elapsed_ms(old(self).arrival_ms, now_ms),
    {
        self.finish_ms = Some(now_ms);
        let turnaround: u64 = now_ms.saturating_sub(self.arrival_ms);
        turnaround as u128
    }
}

} // verus!
