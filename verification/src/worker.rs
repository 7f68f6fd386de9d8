use vstd::prelude::*;
use crate::queue::{can_dispatch, dispatch_choice, TaskQueue};
use crate::task::Task;

verus! {

/// What a worker does next.
#[derive(Clone, Copy, Debug)]
pub enum WorkerAction {
    /// Execute the task, now out of the queue.
    Run(Task),
    /// Nothing to run and the run is over: leave the pool.
    Exit,
    /// Nothing to run yet: wait a moment and ask again.
    Idle,
}

/// A worker's decision: take the task that the policy dispatches from
/// `queue` (with `current_cpu` of the budget in use); with nothing to take,
/// exit once the run is `done`, else stay idle.
pub fn next_action(queue: &mut TaskQueue, current_cpu: usize, optimized: bool, done: bool) -> (action: WorkerAction)
    ensures
        match action {
            WorkerAction::Run(t) => exists|i: int|
                #[trigger] dispatch_choice(old(queue)@, current_cpu, optimized, i) && t == old(
                    queue,
                )@[i] && final(queue)@ == old(queue)@.remove(i),
            WorkerAction::Exit => done && !can_dispatch(old(queue)@, current_cpu, optimized)
                && final(queue)@ == old(queue)@,
            WorkerAction::Idle => !done && !can_dispatch(old(queue)@, current_cpu, optimized)
                && final(queue)@ == old(queue)@,
        },
{
    match queue.take_next(current_cpu, optimized) {
        Some(task) => WorkerAction::Run(task),
        None => if done {
            WorkerAction::Exit
        } else {
            WorkerAction::Idle
        },
    }
}

} // verus!
