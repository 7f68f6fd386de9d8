use std::collections::VecDeque;
use vstd::prelude::*;
use crate::task::{Task, TaskKind, CPU_LIMIT};

verus! {

broadcast use vstd::std_specs::vecdeque::group_vec_dequeue_axioms;

/// A CPU-bound task whose cost still fits under the CPU budget when
/// `current_cpu` is already in use.
pub open spec fn fits_under_limit(t: Task, current_cpu: usize) -> bool {
    t.kind == TaskKind::CPU && current_cpu + t.cpu_cost <= CPU_LIMIT
}

/// An IO-bound task.
pub open spec fn is_io_task(t: Task) -> bool {
    t.kind == TaskKind::IO
}

/// `i` is the first task of `q` that fits under the budget.
pub open spec fn is_first_fit(q: Seq<Task>, current_cpu: usize, i: int) -> bool {
    &&& 0 <= i < q.len()
    &&& fits_under_limit(q[i], current_cpu)
    &&& forall|j: int| 0 <= j < i ==> !fits_under_limit(#[trigger] q[j], current_cpu)
}

/// `i` is the first IO-bound task of `q`.
pub open spec fn is_first_io(q: Seq<Task>, i: int) -> bool {
    &&& 0 <= i < q.len()
    &&& is_io_task(q[i])
    &&& forall|j: int| 0 <= j < i ==> !is_io_task(#[trigger] q[j])
}

/// No task of `q` fits under the budget.
pub open spec fn none_fits(q: Seq<Task>, current_cpu: usize) -> bool {
    forall|j: int| 0 <= j < q.len() ==> !fits_under_limit(#[trigger] q[j], current_cpu)
}

/// The CPU-aware policy picks the first CPU-bound task that fits under the
/// budget; when none fits, it picks the first IO-bound task.
pub open spec fn optimized_choice(q: Seq<Task>, current_cpu: usize, i: int) -> bool {
    ||| is_first_fit(q, current_cpu, i)
    ||| (none_fits(q, current_cpu) && is_first_io(q, i))
}

/// Index `i` is what the policy (FIFO, or CPU-aware when `optimized`)
/// dispatches from `q`.
pub open spec fn dispatch_choice(q: Seq<Task>, current_cpu: usize, optimized: bool, i: int) -> bool {
    if optimized {
        optimized_choice(q, current_cpu, i)
    } else {
        q.len() > 0 && i == 0
    }
}

/// The policy finds something to dispatch from `q`.
pub open spec fn can_dispatch(q: Seq<Task>, current_cpu: usize, optimized: bool) -> bool {
    if optimized {
        (exists|j: int| 0 <= j < q.len() && fits_under_limit(#[trigger] q[j], current_cpu))
            || (exists|j: int| 0 <= j < q.len() && is_io_task(#[trigger] q[j]))
    } else {
        q.len() > 0
    }
}

/// The queue of tasks waiting for a worker, in arrival order.
pub struct TaskQueue {
    tasks: VecDeque<Task>,
}

impl View for TaskQueue {
    type V = Seq<Task>;

    closed spec fn view(&self) -> Seq<Task> {
        self.tasks@
    }
}

impl TaskQueue {
    /// An empty queue.
    pub fn new() -> (q: Self)
        ensures
            q@ == Seq::<Task>::empty(),
    {
        TaskQueue { tasks: VecDeque::new() }
    }

    /// Number of waiting tasks.
    pub fn len(&self) -> (n: usize)
        ensures
            n == self@.len(),
    {
        self.tasks.len()
    }

    /// Whether no task is waiting.
    pub fn is_empty(&self) -> (b: bool)
        ensures
            b == (self@.len() == 0),
    {
        self.tasks.len() == 0
    }

    /// Appends an arriving task at the back.
    pub fn push_back(&mut self, task: Task)
        ensures
            final(self)@ == old(self)@.push(task),
    {
        self.tasks.push_back(task);
    }

    /// Removes and returns the task that the policy dispatches next, with
    /// `current_cpu` of the budget in use: the front task under FIFO; under
    /// the CPU-aware policy the first CPU-bound task that fits, else the first
    /// IO-bound task. The other tasks keep their order.
    pub fn take_next(&mut self, current_cpu: usize, optimized: bool) -> (next: Option<Task>)
        ensures
            match next {
                Some(t) => exists|i: int|
                    #[trigger] dispatch_choice(old(self)@, current_cpu, optimized, i)
                        && t == old(self)@[i] && final(self)@ == old(self)@.remove(i),
                None => !can_dispatch(old(self)@, current_cpu, optimized) && final(self)@
                    == old(self)@,
            },
    {
        if !optimized {
            let r = self.tasks.pop_front();
            proof {
                if r is Some {
                    assert(dispatch_choice(old(self)@, current_cpu, optimized, 0));
                    assert(old(self)@.remove(0) =~= old(self)@.subrange(1, old(self)@.len() as int));
                }
            }
            return r;
        }
        let len = self.tasks.len();
        let mut index: Option<usize> = None;
        let mut i: usize = 0;
        while i < len
            invariant
                len == self@.len(),
                self@ == old(self)@,
                0 <= i <= len,
                optimized,
                forall|j: int| 0 <= j < i ==> !fits_under_limit(#[trigger] self@[j], current_cpu),
                match index {
                    None => forall|j: int| 0 <= j < i ==> !is_io_task(#[trigger] self@[j]),
                    Some(k) => k < i && is_first_io(self@, k as int),
                },
            decreases len - i,
        {
            let t = &self.tasks[i];
            match t.kind {
                TaskKind::CPU => {
                    if current_cpu <= CPU_LIMIT && t.cpu_cost <= CPU_LIMIT - current_cpu {
                        assert(is_first_fit(self@, current_cpu, i as int));
                        assert(dispatch_choice(old(self)@, current_cpu, optimized, i as int));
                        return self.tasks.remove(i);
                    }
                },
                TaskKind::IO => {
                    if index.is_none() {
                        index = Some(i);
                    }
                },
            }
            i = i + 1;
        }
        match index {
            Some(k) => {
                assert(dispatch_choice(old(self)@, current_cpu, optimized, k as int));
                self.tasks.remove(k)
            },
            None => {
                None
            },
        }
    }
}

/// Dispatch neither loses nor duplicates a task: the dispatched task and the
/// tasks left behind are, together, exactly the tasks that were waiting.
pub proof fn lemma_dispatch_conserves_tasks(q: Seq<Task>, current_cpu: usize, optimized: bool, i: int)
    requires
        dispatch_choice(q, current_cpu, optimized, i),
    ensures
        q.remove(i).to_multiset().insert(q[i]) =~= q.to_multiset(),
        q.remove(i).len() + 1 == q.len(),
{
    broadcast use vstd::multiset::group_multiset_axioms;
    vstd::seq_lib::to_multiset_remove(q, i);
    assert(q.contains(q[i]));
    vstd::seq_lib::to_multiset_contains(q, q[i]);
    let m = q.to_multiset();
    assert(m.count(q[i]) > 0);
    assert(m.remove(q[i]).insert(q[i]) =~= m);
}

/// Each policy makes one choice: at most one index of the queue is the one
/// it dispatches.
pub proof fn lemma_dispatch_choice_unique(
    q: Seq<Task>,
    current_cpu: usize,
    optimized: bool,
    i: int,
    j: int,
)
    requires
        dispatch_choice(q, current_cpu, optimized, i),
        dispatch_choice(q, current_cpu, optimized, j),
    ensures
        i == j,
{
    if optimized {
        if is_first_fit(q, current_cpu, i) && is_first_fit(q, current_cpu, j) {
            if i < j {
                assert(!fits_under_limit(q[i], current_cpu));
            } else if j < i {
                assert(!fits_under_limit(q[j], current_cpu));
            }
        } else if is_first_fit(q, current_cpu, i) {
            assert(fits_under_limit(q[i], current_cpu));
        } else if is_first_fit(q, current_cpu, j) {
            assert(fits_under_limit(q[j], current_cpu));
        } else {
            if i < j {
                assert(!is_io_task(q[i]));
            } else if j < i {
                assert(!is_io_task(q[j]));
            }
        }
    }
}

/// The policy finds something to dispatch exactly when it has a choice.
pub proof fn lemma_can_dispatch_iff_choice(q: Seq<Task>, current_cpu: usize, optimized: bool)
    ensures
        can_dispatch(q, current_cpu, optimized) <==> exists|i: int|
            dispatch_choice(q, current_cpu, optimized, i),
{
    if optimized && can_dispatch(q, current_cpu, optimized) {
        if exists|j: int| 0 <= j < q.len() && fits_under_limit(#[trigger] q[j], current_cpu) {
            let k = lemma_first_fit_exists(q, current_cpu);
            assert(dispatch_choice(q, current_cpu, optimized, k));
        } else {
            let k = lemma_first_io_exists(q);
            assert(dispatch_choice(q, current_cpu, optimized, k));
        }
    }
    if !optimized && q.len() > 0 {
        assert(dispatch_choice(q, current_cpu, optimized, 0));
    }
}

proof fn lemma_first_fit_exists(q: Seq<Task>, current_cpu: usize) -> (k: int)
    requires
        exists|j: int| 0 <= j < q.len() && fits_under_limit(#[trigger] q[j], current_cpu),
    ensures
        is_first_fit(q, current_cpu, k),
    decreases q.len(),
{
    if fits_under_limit(q[0], current_cpu) {
        0
    } else {
        let rest = q.drop_first();
        let j = choose|j: int| 0 <= j < q.len() && fits_under_limit(#[trigger] q[j], current_cpu);
        assert(fits_under_limit(rest[j - 1], current_cpu));
        let k = lemma_first_fit_exists(rest, current_cpu);
        assert forall|m: int| 0 <= m < k + 1 implies !fits_under_limit(#[trigger] q[m], current_cpu) by {
            if m > 0 {
                assert(q[m] == rest[m - 1]);
            }
        }
        k + 1
    }
}

proof fn lemma_first_io_exists(q: Seq<Task>) -> (k: int)
    requires
        exists|j: int| 0 <= j < q.len() && is_io_task(#[trigger] q[j]),
    ensures
        is_first_io(q, k),
    decreases q.len(),
{
    if is_io_task(q[0]) {
        0
    } else {
        let rest = q.drop_first();
        let j = choose|j: int| 0 <= j < q.len() && is_io_task(#[trigger] q[j]);
        assert(is_io_task(rest[j - 1]));
        let k = lemma_first_io_exists(rest);
        assert forall|m: int| 0 <= m < k + 1 implies !is_io_task(#[trigger] q[m]) by {
            if m > 0 {
                assert(q[m] == rest[m - 1]);
            }
        }
        k + 1
    }
}

/// The CPU-aware policy never dispatches a CPU-bound task that would push
/// the budget over its limit, and it dispatches an IO-bound task only when
/// no CPU-bound task fits.
pub proof fn lemma_optimized_respects_budget(q: Seq<Task>, current_cpu: usize, i: int)
    requires
        optimized_choice(q, current_cpu, i),
    ensures
        0 <= i < q.len(),
        q[i].kind == TaskKind::CPU ==> current_cpu + q[i].cpu_cost <= CPU_LIMIT,
        q[i].kind == TaskKind::IO ==> forall|j: int|
            0 <= j < q.len() ==> !fits_under_limit(#[trigger] q[j], current_cpu),
{
}

/// A CPU-bound task whose cost fits in what is left of the budget is never
/// passed over for an IO-bound task: the CPU-aware policy then dispatches a
/// CPU-bound task that fits, and no later one than it. An IO-bound task it
/// dispatches is the first IO-bound task in the queue.
pub proof fn lemma_fitting_cpu_task_is_preferred(q: Seq<Task>, current_cpu: usize, i: int, j: int)
    requires
        optimized_choice(q, current_cpu, i),
    ensures
        0 <= j < q.len() && q[j].kind == TaskKind::CPU && current_cpu + q[j].cpu_cost <= CPU_LIMIT
            ==> {
            &&& q[i].kind == TaskKind::CPU
            &&& current_cpu + q[i].cpu_cost <= CPU_LIMIT
            &&& i <= j
        },
        q[i].kind == TaskKind::IO ==> forall|k: int| 0 <= k < i ==> q[k].kind != TaskKind::IO,
        q[i].kind == TaskKind::CPU ==> forall|k: int|
            0 <= k < i ==> !(q[k].kind == TaskKind::CPU && current_cpu + q[k].cpu_cost
                <= CPU_LIMIT),
{
    if 0 <= j < q.len() && q[j].kind == TaskKind::CPU && current_cpu + q[j].cpu_cost <= CPU_LIMIT {
        assert(fits_under_limit(q[j], current_cpu));
        assert(!none_fits(q, current_cpu));
        assert(is_first_fit(q, current_cpu, i));
        if j < i {
            assert(!fits_under_limit(q[j], current_cpu));
        }
    }
    if q[i].kind == TaskKind::IO {
        assert(!fits_under_limit(q[i], current_cpu));
        assert(is_first_io(q, i));
        assert forall|k: int| 0 <= k < i implies q[k].kind != TaskKind::IO by {
            assert(!is_io_task(q[k]));
        }
    } else {
        assert(!is_io_task(q[i]));
        assert(is_first_fit(q, current_cpu, i));
        assert forall|k: int| 0 <= k < i implies !(q[k].kind == TaskKind::CPU && current_cpu
            + q[k].cpu_cost <= CPU_LIMIT) by {
            assert(!fits_under_limit(q[k], current_cpu));
        }
    }
}

/// Under FIFO the task that waited longest, the front one, goes first.
pub proof fn lemma_fifo_takes_front(q: Seq<Task>, current_cpu: usize, i: int)
    requires
        dispatch_choice(q, current_cpu, false, i),
    ensures
        i == 0,
        q.remove(i) =~= q.drop_first(),
{
}

} // verus!
