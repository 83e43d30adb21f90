# azure-eventhub-vector-pipeline

Streams events from Azure Event Hubs to Vector over TCP, in batches, with
checkpoints of each partition's position and periodic metrics.

- `src/` is the verified library (Verus): configuration defaults, the
  per-partition consumer state machine (`consumer`), the checkpoint cache and
  blob naming (`checkpoints`), metrics aggregates and report (`metrics`),
  event batching (`pipeline`), batch delivery retries (`sender`), the backoff
  policies it draws on (`retry`), connection settings (`connection`) and text
  helpers (`text`).
- `app/` is the program around it: configuration file, Azure clients, Tokio
  tasks, TCP, timers and logging.
- `tests/` exercises the library.
