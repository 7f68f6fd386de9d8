//! Small verified building blocks: integer exercises, a guessing game,
//! a producer/consumer protocol, a file-operation menu, and a CPU-aware
//! task dispatcher with its metrics.

pub mod numbers;
pub mod guessing;
pub mod pipeline;
pub mod file_ops;

pub mod task;
pub mod workload;
pub mod queue;
pub mod gauge;
pub mod metrics;
pub mod worker;
