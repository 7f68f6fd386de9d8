use rand::rngs::StdRng;
use rand::{Rng, SeedableRng};
use vstd::prelude::*;
use crate::task::{Task, TaskKind, CPU_TASK_COST, IO_TASK_COST, TOTAL_TASKS};

verus! {

#[verifier::external_type_specification]
#[verifier::external_body]
pub struct ExStdRng(rand::rngs::StdRng);

/// The first `count` 32-bit words of the stream of rand's `StdRng` seeded
/// with `seed` (ChaCha12 in rand 0.8): fixed by the seed and the count alone.
pub uninterp spec fn std_rng_words(seed: u64, count: nat) -> Seq<u32>;

/// Seeds rand's `StdRng` with `SeedableRng::seed_from_u64(seed)` and fills a
/// buffer of `count` words with `Rng::fill`. The words are the generator's
/// stream in order: `fill` on `[u32]` takes them from the same block buffer
/// that `next_u32` reads. Neither call fails for this generator; the buffer
/// needs `4 * count` bytes, so `count` is bounded by what a `Vec` can hold.
#[verifier::external_body]
fn seeded_words(seed: u64, count: usize) -> (words: Vec<u32>)
    requires
        4 * count <= isize::MAX,
    ensures
        words@ == std_rng_words(seed, count as nat),
        words@.len() == count,
{
    let mut rng = StdRng::seed_from_u64(seed);
    let mut words = vec![0u32; count];
    rng.fill(words.as_mut_slice());
    words
}

/// Shortest duration of a generated task, in milliseconds.
pub const BASE_DURATION_MS: u64 = 180;

/// Generated durations spread over this many milliseconds above the base.
pub const DURATION_SPREAD_MS: u32 = 40;

/// The task with index `id` built from two draws: the first decides its kind
/// (IO-bound when the draw modulo 100 falls under `io_percent`), the second
/// its duration.
pub open spec fn drawn_task(
    id: usize,
    kind_draw: u32,
    duration_draw: u32,
    io_percent: u32,
    arrival_ms: u64,
) -> Task {
    let is_io = kind_draw % 100 < io_percent;
    Task {
        id: id,
        kind: if is_io {
            TaskKind::IO
        } else {
            TaskKind::CPU
        },
        duration_ms: (BASE_DURATION_MS + duration_draw % DURATION_SPREAD_MS) as u64,
        cpu_cost: if is_io {
            IO_TASK_COST
        } else {
            CPU_TASK_COST
        },
        arrival_ms: arrival_ms,
        start_ms: None,
        finish_ms: None,
    }
}

/// How a drawn task depends on its draws: it is IO-bound exactly when the
/// kind draw modulo 100 is below the IO share, so draws that agree modulo 100
/// give the same kind, a larger share never turns an IO-bound task CPU-bound,
/// a share of 100 or more makes every task IO-bound and a share of 0 none; an
/// IO-bound task costs 10 and a CPU-bound one 35; the duration is 180 plus
/// the duration draw modulo 40, so it lies in [180, 220).
pub proof fn lemma_drawn_task_shape(
    id: usize,
    kind_draw: u32,
    other_kind_draw: u32,
    duration_draw: u32,
    io_percent: u32,
    larger_percent: u32,
    arrival_ms: u64,
)
    ensures
        ({
            let t = drawn_task(id, kind_draw, duration_draw, io_percent, arrival_ms);
            &&& (t.kind == TaskKind::IO <==> kind_draw % 100 < io_percent)
            &&& (t.kind == TaskKind::CPU <==> kind_draw % 100 >= io_percent)
            &&& (t.kind == TaskKind::IO ==> t.cpu_cost == 10)
            &&& (t.kind == TaskKind::CPU ==> t.cpu_cost == 35)
            &&& t.duration_ms == 180 + duration_draw % 40
            &&& 180 <= t.duration_ms < 220
            &&& t.id == id
            &&& t.arrival_ms == arrival_ms
            &&& t.start_ms is None
            &&& t.finish_ms is None
        }),
        kind_draw % 100 == other_kind_draw % 100 ==> drawn_task(
            id,
            kind_draw,
            duration_draw,
            io_percent,
            arrival_ms,
        ).kind == drawn_task(id, other_kind_draw, duration_draw, io_percent, arrival_ms).kind,
        io_percent <= larger_percent && drawn_task(
            id,
            kind_draw,
            duration_draw,
            io_percent,
            arrival_ms,
        ).kind == TaskKind::IO ==> drawn_task(
            id,
            kind_draw,
            duration_draw,
            larger_percent,
            arrival_ms,
        ).kind == TaskKind::IO,
        io_percent >= 100 ==> drawn_task(id, kind_draw, duration_draw, io_percent, arrival_ms).kind
            == TaskKind::IO,
        io_percent == 0 ==> drawn_task(id, kind_draw, duration_draw, io_percent, arrival_ms).kind
            == TaskKind::CPU,
{
}

/// Builds the task with index `id` from its two draws.
pub fn task_from_draws(
    id: usize,
    kind_draw: u32,
    duration_draw: u32,
    io_percent: u32,
    arrival_ms: u64,
) -> (t: Task)
    ensures
        t == drawn_task(id, kind_draw, duration_draw, io_percent, arrival_ms),
{
    let is_io = kind_draw % 100 < io_percent;
    let kind = if is_io {
        TaskKind::IO
    } else {
        TaskKind::CPU
    };
    let duration: u64 = BASE_DURATION_MS + (duration_draw % DURATION_SPREAD_MS) as u64;
    let cpu_cost = if is_io {
        IO_TASK_COST
    } else {
        CPU_TASK_COST
    };
    Task {
        id,
        kind,
        duration_ms: duration,
        cpu_cost,
        arrival_ms,
        start_ms: None,
        finish_ms: None,
    }
}

/// Number of draws one workload uses: two per task, the kind draw first.
pub const DRAWS_PER_WORKLOAD: usize = 2000;

/// Builds the workload from its draws: task `i` takes draw `2 i` for its
/// kind and draw `2 i + 1` for its duration.
pub fn tasks_from_draws(draws: &Vec<u32>, io_percent: u32, arrival_ms: u64) -> (tasks: Vec<Task>)
    requires
        draws.len() == 2 * TOTAL_TASKS,
    ensures
        tasks.len() == TOTAL_TASKS,
        forall|i: int|
            0 <= i < TOTAL_TASKS ==> #[trigger] tasks@[i] == drawn_task(
                i as usize,
                draws@[2 * i],
                draws@[2 * i + 1],
                io_percent,
                arrival_ms,
            ),
{
    let mut tasks: Vec<Task> = Vec::new();
    let mut i: usize = 0;
    while i < TOTAL_TASKS
        invariant
            i <= TOTAL_TASKS,
            draws.len() == 2 * TOTAL_TASKS,
            tasks.len() == i,
            forall|j: int|
                0 <= j < i ==> #[trigger] tasks@[j] == drawn_task(
                    j as usize,
                    draws@[2 * j],
                    draws@[2 * j + 1],
                    io_percent,
                    arrival_ms,
                ),
        decreases TOTAL_TASKS - i,
    {
        let t = task_from_draws(i, draws[2 * i], draws[2 * i + 1], io_percent, arrival_ms);
        tasks.push(t);
        i = i + 1;
    }
    tasks
}

/// Generates the workload of one run: `TOTAL_TASKS` tasks with ids in order,
/// all arriving at `arrival_ms`, built from the first `DRAWS_PER_WORKLOAD`
/// words of the generator seeded with `seed`. The same seed gives the same
/// workload.
pub fn build_tasks(io_percent: u32, seed: u64, arrival_ms: u64) -> (tasks: Vec<Task>)
    ensures
        tasks.len() == TOTAL_TASKS,
        forall|i: int|
            0 <= i < TOTAL_TASKS ==> #[trigger] tasks@[i] == drawn_task(
                i as usize,
                std_rng_words(seed, DRAWS_PER_WORKLOAD as nat)[2 * i],
                std_rng_words(seed, DRAWS_PER_WORKLOAD as nat)[2 * i + 1],
                io_percent,
                arrival_ms,
            ),
{
    let draws = seeded_words(seed, DRAWS_PER_WORKLOAD);
    tasks_from_draws(&draws, io_percent, arrival_ms)
}

/// The workload is a function of its inputs: two runs with the same share,
/// seed and arrival time get task-for-task the same tasks.
pub proof fn lemma_same_seed_same_workload(
    a: Seq<Task>,
    b: Seq<Task>,
    io_percent: u32,
    seed: u64,
    arrival_ms: u64,
)
    requires
        a.len() == TOTAL_TASKS,
        b.len() == TOTAL_TASKS,
        forall|i: int|
            0 <= i < TOTAL_TASKS ==> #[trigger] a[i] == drawn_task(
                i as usize,
                std_rng_words(seed, DRAWS_PER_WORKLOAD as nat)[2 * i],
                std_rng_words(seed, DRAWS_PER_WORKLOAD as nat)[2 * i + 1],
                io_percent,
                arrival_ms,
            ),
        forall|i: int|
            0 <= i < TOTAL_TASKS ==> #[trigger] b[i] == drawn_task(
                i as usize,
                std_rng_words(seed, DRAWS_PER_WORKLOAD as nat)[2 * i],
                std_rng_words(seed, DRAWS_PER_WORKLOAD as nat)[2 * i + 1],
                io_percent,
                arrival_ms,
            ),
    ensures
        a == b,
{
    assert(a =~= b) by {
        assert forall|i: int| 0 <= i < a.len() implies a[i] == b[i] by {
            assert(a[i] == b[i]);
        }
    }
}

} // verus!
