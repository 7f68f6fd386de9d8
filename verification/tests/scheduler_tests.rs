use coursework::gauge::CpuGauge;
use coursework::metrics::Metrics;
use coursework::queue::TaskQueue;
use coursework::task::{Task, TaskKind, CPU_LIMIT, CPU_TASK_COST, IO_TASK_COST, TOTAL_TASKS};
use coursework::worker::{next_action, WorkerAction};
use coursework::workload::{build_tasks, task_from_draws, tasks_from_draws, DRAWS_PER_WORKLOAD};
use rand::rngs::StdRng;
use rand::{RngCore, SeedableRng};

fn task(id: usize, kind: TaskKind, cpu_cost: usize) -> Task {
    Task {
        id,
        kind,
        duration_ms: 200,
        cpu_cost,
        arrival_ms: 0,
        start_ms: None,
        finish_ms: None,
    }
}

fn queue_of(tasks: &[Task]) -> TaskQueue {
    let mut q = TaskQueue::new();
    for t in tasks {
        q.push_back(*t);
    }
    q
}

fn drain_ids(q: &mut TaskQueue) -> Vec<usize> {
    let mut ids = Vec::new();
    while let Some(t) = q.take_next(0, false) {
        ids.push(t.id);
    }
    ids
}

#[test]
fn fifo_dispatches_in_arrival_order() {
    let mut q = queue_of(&[
        task(0, TaskKind::IO, 10),
        task(1, TaskKind::CPU, 35),
        task(2, TaskKind::IO, 10),
    ]);
    assert_eq!(q.len(), 3);
    assert_eq!(drain_ids(&mut q), vec![0, 1, 2]);
    assert!(q.is_empty());
    assert!(q.take_next(0, false).is_none());
}

#[test]
fn fifo_ignores_the_budget() {
    let mut q = queue_of(&[task(0, TaskKind::CPU, 35)]);
    let t = q.take_next(CPU_LIMIT, false).unwrap();
    assert_eq!(t.id, 0);
}

#[test]
fn optimized_prefers_a_fitting_cpu_task() {
    let mut q = queue_of(&[
        task(0, TaskKind::IO, 10),
        task(1, TaskKind::IO, 10),
        task(2, TaskKind::CPU, 35),
        task(3, TaskKind::CPU, 35),
    ]);
    let t = q.take_next(50, true).unwrap();
    assert_eq!(t.id, 2);
    assert_eq!(drain_ids(&mut q), vec![0, 1, 3]);
}

#[test]
fn optimized_falls_back_to_the_first_io_task() {
    let mut q = queue_of(&[
        task(0, TaskKind::CPU, 35),
        task(1, TaskKind::IO, 10),
        task(2, TaskKind::IO, 10),
    ]);
    // 70 + 35 > 100: no CPU-bound task fits.
    let t = q.take_next(70, true).unwrap();
    assert_eq!(t.id, 1);
    assert_eq!(drain_ids(&mut q), vec![0, 2]);
}

#[test]
fn optimized_cpu_task_that_exactly_fills_the_budget() {
    let mut q = queue_of(&[task(0, TaskKind::IO, 10), task(1, TaskKind::CPU, 35)]);
    let t = q.take_next(65, true).unwrap();
    assert_eq!(t.id, 1);
}

#[test]
fn optimized_finds_nothing_when_only_oversized_cpu_tasks_wait() {
    let mut q = queue_of(&[task(0, TaskKind::CPU, 35), task(1, TaskKind::CPU, 35)]);
    assert!(q.take_next(80, true).is_none());
    assert_eq!(q.len(), 2);
    assert!(q.take_next(usize::MAX, true).is_none());
    assert!(TaskQueue::new().take_next(0, true).is_none());
}

#[test]
fn dispatch_keeps_every_other_task() {
    let tasks: Vec<Task> = (0..6)
        .map(|i| task(i, if i % 2 == 0 { TaskKind::IO } else { TaskKind::CPU }, 10))
        .collect();
    let mut q = queue_of(&tasks);
    let mut seen = Vec::new();
    while let Some(t) = q.take_next(0, true) {
        seen.push(t.id);
    }
    seen.sort();
    assert_eq!(seen, vec![0, 1, 2, 3, 4, 5]);
}

#[test]
fn worker_actions() {
    let mut q = queue_of(&[task(7, TaskKind::IO, 10)]);
    match next_action(&mut q, 0, false, false) {
        WorkerAction::Run(t) => assert_eq!(t.id, 7),
        other => panic!("unexpected {:?}", other),
    }
    assert!(matches!(next_action(&mut q, 0, false, false), WorkerAction::Idle));
    assert!(matches!(next_action(&mut q, 0, true, true), WorkerAction::Exit));
}

#[test]
fn gauge_admission_and_release() {
    let mut g = CpuGauge::new();
    assert_eq!(g.current_cpu(), 0);
    assert!(g.admits(CPU_LIMIT));
    assert!(!g.admits(CPU_LIMIT + 1));
    assert!(g.try_acquire(35));
    assert!(g.try_acquire(35));
    assert_eq!(g.current_cpu(), 70);
    assert_eq!(g.workers_active(), 2);
    assert!(!g.try_acquire(35));
    assert_eq!(g.current_cpu(), 70);
    assert!(g.try_acquire(30));
    assert_eq!(g.current_cpu(), 100);
    g.release(30);
    g.release(35);
    g.release(35);
    assert_eq!(g.current_cpu(), 0);
    assert_eq!(g.workers_active(), 0);
}

#[test]
fn release_undoes_acquire_even_when_counters_wrap() {
    let mut g = CpuGauge::new();
    g.acquire(usize::MAX);
    g.acquire(5);
    assert_eq!(g.current_cpu(), 4);
    assert!(g.admits(96));
    g.release(5);
    g.release(usize::MAX);
    assert_eq!(g.current_cpu(), 0);
    assert_eq!(g.workers_active(), 0);
    g.release(10);
    assert_eq!(g.current_cpu(), usize::MAX - 9);
    assert!(!g.admits(0));
    g.acquire(10);
    assert_eq!(g.current_cpu(), 0);
}

#[test]
fn task_times() {
    let mut t = task(3, TaskKind::CPU, 35);
    t.arrival_ms = 100;
    assert_eq!(t.mark_started(250), 150);
    assert_eq!(t.start_ms, Some(250));
    assert_eq!(t.mark_finished(460), 360);
    assert_eq!(t.finish_ms, Some(460));
    let mut early = task(4, TaskKind::IO, 10);
    early.arrival_ms = 500;
    assert_eq!(early.mark_started(400), 0);
}

#[test]
fn metrics_record_completions() {
    let mut m = Metrics::new();
    assert!(!m.is_complete());
    m.record_completion(&task(1, TaskKind::IO, 10), 40, 240);
    m.record_completion(&task(2, TaskKind::CPU, 35), 90, 300);
    m.record_completion(&task(3, TaskKind::CPU, 35), 90, 310);
    assert_eq!(m.completed, 3);
    assert_eq!(m.io_completed, 1);
    assert_eq!(m.cpu_completed, 2);
    assert_eq!(m.total_wait, 220);
    assert_eq!(m.total_turnaround, 850);
    assert_eq!(m.io_wait_total, 40);
    assert_eq!(m.cpu_wait_total, 180);
    assert_eq!(m.io_wait_count, 1);
    assert_eq!(m.cpu_wait_count, 2);
    // Ties keep the task that waited that long first.
    assert_eq!(m.max_wait, 90);
    assert_eq!(m.max_wait_task, 2);
    assert_eq!(m.completed, m.io_completed + m.cpu_completed);
    assert_eq!(m.total_wait, m.io_wait_total + m.cpu_wait_total);
}

#[test]
fn metrics_record_samples() {
    let mut m = Metrics::default();
    m.record_sample(45, 2);
    m.record_sample(100, 5);
    assert_eq!(m.cpu_usage_total, 145);
    assert_eq!(m.cpu_usage_samples, 2);
    assert_eq!(m.workers_active_total, 7);
    assert_eq!(m.worker_samples, 2);
    assert_eq!(m.monitor_samples, 2);
    assert_eq!(m.completed, 0);
}

#[test]
fn metrics_complete_after_all_tasks() {
    let mut m = Metrics::new();
    for i in 0..TOTAL_TASKS {
        assert!(!m.is_complete());
        m.record_completion(&task(i, TaskKind::IO, 10), 1, 1);
    }
    assert!(m.is_complete());
}

#[test]
fn task_from_draws_formula() {
    let io = task_from_draws(5, 169, 77, 70, 12);
    assert_eq!(io.id, 5);
    assert_eq!(io.kind, TaskKind::IO);
    assert_eq!(io.cpu_cost, IO_TASK_COST);
    assert_eq!(io.duration_ms, 180 + 37);
    assert_eq!(io.arrival_ms, 12);
    assert_eq!(io.start_ms, None);
    let cpu = task_from_draws(6, 70, 40, 70, 12);
    assert_eq!(cpu.kind, TaskKind::CPU);
    assert_eq!(cpu.cpu_cost, CPU_TASK_COST);
    assert_eq!(cpu.duration_ms, 180);
    let never_io = task_from_draws(7, 0, 39, 0, 0);
    assert_eq!(never_io.kind, TaskKind::CPU);
    assert_eq!(never_io.duration_ms, 219);
    let always_io = task_from_draws(8, 99, 0, 100, 0);
    assert_eq!(always_io.kind, TaskKind::IO);
}

#[test]
fn build_tasks_shape() {
    let tasks = build_tasks(70, 42, 5);
    assert_eq!(tasks.len(), TOTAL_TASKS);
    for (i, t) in tasks.iter().enumerate() {
        assert_eq!(t.id, i);
        assert_eq!(t.arrival_ms, 5);
        assert!(t.duration_ms >= 180 && t.duration_ms < 220);
        match t.kind {
            TaskKind::IO => assert_eq!(t.cpu_cost, IO_TASK_COST),
            TaskKind::CPU => assert_eq!(t.cpu_cost, CPU_TASK_COST),
        }
    }
    let io = tasks.iter().filter(|t| t.kind == TaskKind::IO).count();
    assert!(io > 600 && io < 800);
    assert!(build_tasks(0, 42, 0).iter().all(|t| t.kind == TaskKind::CPU));
    assert!(build_tasks(100, 42, 0).iter().all(|t| t.kind == TaskKind::IO));
}

#[test]
fn build_tasks_uses_the_generator_draws() {
    let a = build_tasks(70, 42, 0);
    let b = build_tasks(70, 42, 0);
    let same = a.iter().zip(b.iter()).all(|(x, y)| x.kind == y.kind && x.duration_ms == y.duration_ms);
    assert!(same);
    let c = build_tasks(70, 43, 0);
    let differ = a.iter().zip(c.iter()).any(|(x, y)| x.kind != y.kind || x.duration_ms != y.duration_ms);
    assert!(differ);
}

fn next_u32_stream(seed: u64, count: usize) -> Vec<u32> {
    let mut rng = StdRng::seed_from_u64(seed);
    (0..count).map(|_| rng.next_u32()).collect()
}

#[test]
fn build_tasks_follows_the_next_u32_stream() {
    for seed in [42u64, 0, 7] {
        let draws = next_u32_stream(seed, DRAWS_PER_WORKLOAD);
        let tasks = build_tasks(70, seed, 3);
        for (i, t) in tasks.iter().enumerate() {
            let expected = task_from_draws(i, draws[2 * i], draws[2 * i + 1], 70, 3);
            assert_eq!(t.id, expected.id);
            assert_eq!(t.kind, expected.kind);
            assert_eq!(t.duration_ms, expected.duration_ms);
            assert_eq!(t.cpu_cost, expected.cpu_cost);
            assert_eq!(t.arrival_ms, expected.arrival_ms);
        }
    }
}

#[test]
fn tasks_from_draws_pairs_kind_then_duration() {
    let mut draws = vec![0u32; DRAWS_PER_WORKLOAD];
    // Task 0: kind draw 5 (IO at 70%), duration draw 39.
    draws[0] = 5;
    draws[1] = 39;
    // Task 1: kind draw 99 (CPU), duration draw 1.
    draws[2] = 99;
    draws[3] = 1;
    let tasks = tasks_from_draws(&draws, 70, 0);
    assert_eq!(tasks.len(), TOTAL_TASKS);
    assert_eq!(tasks[0].kind, TaskKind::IO);
    assert_eq!(tasks[0].duration_ms, 219);
    assert_eq!(tasks[1].kind, TaskKind::CPU);
    assert_eq!(tasks[1].duration_ms, 181);
    assert_eq!(tasks[2].kind, TaskKind::IO);
    assert_eq!(tasks[2].duration_ms, 180);
}
