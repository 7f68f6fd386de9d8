use vstd::prelude::*;
use crate::task::{Task, TaskKind, TOTAL_TASKS};

verus! {

/// Counters collected while a simulation runs: one record per completed task
/// and one per monitor sample.
pub struct Metrics {
    pub completed: usize,
    pub io_completed: usize,
    pub cpu_completed: usize,
    pub total_wait: u128,
    pub total_turnaround: u128,
    pub io_wait_total: u128,
    pub cpu_wait_total: u128,
    pub io_wait_count: usize,
    pub cpu_wait_count: usize,
    pub max_wait: u128,
    pub max_wait_task: usize,
    pub cpu_usage_samples: usize,
    pub cpu_usage_total: usize,
    pub worker_samples: usize,
    pub workers_active_total: usize,
    pub monitor_samples: usize,
}

impl Metrics {
    /// The counters agree with one another: every completion is counted once
    /// overall and once for its kind, the waits split by kind add up to the
    /// total wait, the longest wait is part of the total, and the monitor's
    /// three sample counters move together.
    pub open spec fn wf(&self) -> bool {
        &&& self.completed == self.io_completed + self.cpu_completed
        &&& self.io_wait_count == self.io_completed
        &&& self.cpu_wait_count == self.cpu_completed
        &&& self.total_wait == self.io_wait_total + self.cpu_wait_total
        &&& self.max_wait <= self.total_wait
        &&& self.cpu_usage_samples == self.monitor_samples
        &&& self.worker_samples == self.monitor_samples
    }

    /// Recording a completion of a task of kind `kind` overflows no counter.
    pub open spec fn completion_fits(&self, kind: TaskKind, wait: u128, turnaround: u128) -> bool {
        &&& self.completed + 1 <= usize::MAX
        &&& self.total_wait + wait <= u128::MAX
        &&& self.total_turnaround + turnaround <= u128::MAX
        &&& kind == TaskKind::CPU ==> {
            &&& self.cpu_completed + 1 <= usize::MAX
            &&& self.cpu_wait_total + wait <= u128::MAX
            &&& self.cpu_wait_count + 1 <= usize::MAX
        }
        &&& kind == TaskKind::IO ==> {
            &&& self.io_completed + 1 <= usize::MAX
            &&& self.io_wait_total + wait <= u128::MAX
            &&& self.io_wait_count + 1 <= usize::MAX
        }
    }

    /// Recording a monitor sample overflows no counter.
    pub open spec fn sample_fits(&self, cpu: usize, active: usize) -> bool {
        &&& self.cpu_usage_total + cpu <= usize::MAX
        &&& self.cpu_usage_samples + 1 <= usize::MAX
        &&& self.workers_active_total + active <= usize::MAX
        &&& self.worker_samples + 1 <= usize::MAX
        &&& self.monitor_samples + 1 <= usize::MAX
    }

    /// Every counter at zero.
    pub open spec fn is_zero(&self) -> bool {
        &&& self.completed == 0
        &&& self.io_completed == 0
        &&& self.cpu_completed == 0
        &&& self.total_wait == 0
        &&& self.total_turnaround == 0
        &&& self.io_wait_total == 0
        &&& self.cpu_wait_total == 0
        &&& self.io_wait_count == 0
        &&& self.cpu_wait_count == 0
        &&& self.max_wait == 0
        &&& self.max_wait_task == 0
        &&& self.cpu_usage_samples == 0
        &&& self.cpu_usage_total == 0
        &&& self.worker_samples == 0
        &&& self.workers_active_total == 0
        &&& self.monitor_samples == 0
    }

    /// Fresh counters, all zero.
    pub fn new() -> (m: Self)
        ensures
            m.is_zero(),
            m.wf(),
    {
        Metrics {
            completed: 0,
            io_completed: 0,
            cpu_completed: 0,
            total_wait: 0,
            total_turnaround: 0,
            io_wait_total: 0,
            cpu_wait_total: 0,
            io_wait_count: 0,
            cpu_wait_count: 0,
            max_wait: 0,
            max_wait_task: 0,
            cpu_usage_samples: 0,
            cpu_usage_total: 0,
            worker_samples: 0,
            workers_active_total: 0,
            monitor_samples: 0,
        }
    }

    /// Records that `task` completed after waiting `wait` ms and spending
    /// `turnaround` ms in the system. The longest wait, and the task that
    /// waited it, change only on a strictly longer wait.
    pub fn record_completion(&mut self, task: &Task, wait: u128, turnaround: u128)
        requires
            old(self).completion_fits(task.kind, wait, turnaround),
        ensures
            final(self).completed == old(self).completed + 1,
            final(self).total_wait == old(self).total_wait + wait,
            final(self).total_turnaround == old(self).total_turnaround + turnaround,
            wait > old(self).max_wait ==> final(self).max_wait == wait && final(self).max_wait_task
                == task.id,
            wait <= old(self).max_wait ==> final(self).max_wait == old(self).max_wait
                && final(self).max_wait_task == old(self).max_wait_task,
            task.kind == TaskKind::CPU ==> {
                &&& final(self).cpu_completed == old(self).cpu_completed + 1
                &&& final(self).cpu_wait_total == old(self).cpu_wait_total + wait
                &&& final(self).cpu_wait_count == old(self).cpu_wait_count + 1
                &&& final(self).io_completed == old(self).io_completed
                &&& final(self).io_wait_total == old(self).io_wait_total
                &&& final(self).io_wait_count == old(self).io_wait_count
            },
            task.kind == TaskKind::IO ==> {
                &&& final(self).io_completed == old(self).io_completed + 1
                &&& final(self).io_wait_total == old(self).io_wait_total + wait
                &&& final(self).io_wait_count == old(self).io_wait_count + 1
                &&& final(self).cpu_completed == old(self).cpu_completed
                &&& final(self).cpu_wait_total == old(self).cpu_wait_total
                &&& final(self).cpu_wait_count == old(self).cpu_wait_count
            },
            final(self).cpu_usage_samples == old(self).cpu_usage_samples,
            final(self).cpu_usage_total == old(self).cpu_usage_total,
            final(self).worker_samples == old(self).worker_samples,
            final(self).workers_active_total == old(self).workers_active_total,
            final(self).monitor_samples == old(self).monitor_samples,
            old(self).wf() ==> final(self).wf(),
    {
        self.completed = self.completed + 1;
        self.total_wait = self.total_wait + wait;
        self.total_turnaround = self.total_turnaround + turnaround;
        if wait > self.max_wait {
            self.max_wait = wait;
            self.max_wait_task = task.id;
        }
        match task.kind {
            TaskKind::CPU => {
                self.cpu_completed = self.cpu_completed + 1;
                self.cpu_wait_total = self.cpu_wait_total + wait;
                self.cpu_wait_count = self.cpu_wait_count + 1;
            },
            TaskKind::IO => {
                self.io_completed = self.io_completed + 1;
                self.io_wait_total = self.io_wait_total + wait;
                self.io_wait_count = self.io_wait_count + 1;
            },
        }
    }

    /// Records one monitor sample: `cpu` of the budget in use and `active`
    /// busy workers.
    pub fn record_sample(&mut self, cpu: usize, active: usize)
        requires
            old(self).sample_fits(cpu, active),
        ensures
            final(self).cpu_usage_total == old(self).cpu_usage_total + cpu,
            final(self).cpu_usage_samples == old(self).cpu_usage_samples + 1,
            final(self).workers_active_total == old(self).workers_active_total + active,
            final(self).worker_samples == old(self).worker_samples + 1,
            final(self).monitor_samples == old(self).monitor_samples + 1,
            final(self).completed == old(self).completed,
            final(self).io_completed == old(self).io_completed,
            final(self).cpu_completed == old(self).cpu_completed,
            final(self).total_wait == old(self).total_wait,
            final(self).total_turnaround == old(self).total_turnaround,
            final(self).io_wait_total == old(self).io_wait_total,
            final(self).cpu_wait_total == old(self).cpu_wait_total,
            final(self).io_wait_count == old(self).io_wait_count,
            final(self).cpu_wait_count == old(self).cpu_wait_count,
            final(self).max_wait == old(self).max_wait,
            final(self).max_wait_task == old(self).max_wait_task,
            old(self).wf() ==> final(self).wf(),
    {
        self.cpu_usage_total = self.cpu_usage_total + cpu;
        self.cpu_usage_samples = self.cpu_usage_samples + 1;
        self.workers_active_total = self.workers_active_total + active;
        self.worker_samples = self.worker_samples + 1;
        self.monitor_samples = self.monitor_samples + 1;
    }

    /// Whether every task of a run has completed.
    pub fn is_complete(&self) -> (done: bool)
        ensures
            done == (self.completed >= TOTAL_TASKS),
    {
        self.completed >= TOTAL_TASKS
    }
}

impl Default for Metrics {
    fn default() -> (m: Self)
        ensures
            m.is_zero(),
    {
        Metrics::new()
    }
}

} // verus!
