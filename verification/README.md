# ahr-endpoint (verified library)

The decision logic of the Adaptive Hollow Reflector endpoint agent, written
in Verus and proved against its contracts.

* `src/` — the library:
  * `action` — action codes shared with the kernel program;
  * `detection` — ransomware-behavior detection over a process-table
    snapshot, identity hashing, jittered dispatch delays;
  * `enforcement` — risk-to-action mapping, the TTL-bounded flagged set
    with its whitelist, and userspace containment plans;
  * `process_tree` — descendants of a process in a snapshot;
  * `hollow`, `hollow_basic` — the extended and the first `FileHollow`
    scoring models (risk score, reasons, recommendations, summaries);
  * `imports` — a duplicate-free set of imported API names;
  * `kernel` — eBPF object search order and the kernel kill decision;
  * `run_options` — the `--dry-run` and `--once` controls;
  * `measure`, `text` — `f32` bit-pattern comparisons and text rendering.
* `app/` — the agent program: reads the process table (sysinfo), sends
  signals, loads the eBPF path (aya), publishes invariants (NATS) and runs
  the poll loop (tokio).
* `tests/` — tests of the library.

Measurements that telemetry reports as `f32` are carried as their IEEE-754
bit patterns, and the anomaly score as tenths.
