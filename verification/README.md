# coursework

A verified Rust library (checked with Verus) and a small command-line front end.

- `src/` — the library, verified except for one trusted wrapper around rand (`seeded_words` in `workload`):
  - `numbers`, `guessing`: parity, FizzBuzz-style labels, sums, maxima, guess verdicts;
  - `pipeline`: the values producers send and what a consumer does with each one;
  - `file_ops`: menu parsing, the shell command for each file operation, and the
    messages reported afterwards;
  - `task`, `workload`, `queue`, `gauge`, `metrics`, `worker`: a task dispatcher
    with FIFO and CPU-aware policies, a CPU budget gauge and run metrics.
- `app/` — threads, sleeping, the clock, files, process spawning, printing and the
  floating-point parts (temperature conversion, averages).
- `tests/` — tests of the library on concrete values.
