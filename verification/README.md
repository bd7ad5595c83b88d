# trzcina

Async service lifecycle orchestration: run a set of long-lived services,
cancel the siblings when one finishes, report how each ended, and enforce two
shutdown deadlines (a cooperative one and one for the abort).

- `src/` is the verified library (Verus): shutdown outcomes and their report,
  `into_result`, the shutdown sequence as a state machine with its laws, the
  settling of each service's outcome, and the tick bookkeeping of periodic
  services.
- `app/` is the tokio runtime around it: the `Service`, `ServiceBundle`,
  `LocalService` and `Ticker` traits, spawning and draining the tasks, and
  `Display`/`Error` for the report types.
- `tests/` exercises the library.
