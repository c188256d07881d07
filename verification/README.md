# execgo_runtime

The verified core of the ExecGo runtime data plane, written in Verus.

`src/` is the library, checked by Verus:

- `ledger` — the resource ledger: runtime capacity, per-tenant soft quotas
  (kept sorted by tenant name), admission checks, reservation totals and
  what is left; with the laws that tie submission-time and dispatch-time
  checks together and keep admitted reservations within capacity.
- `types` — task requests, limits and sandbox policies, and their
  validation (task ids, execution kinds, environment names, workspace
  subdirectories, chroot settings).
- `error` — the runtime error, its wire code, HTTP status and message.
- `repo` — the task store's own logic: stored texts of statuses, error
  codes and event kinds (with round-trip laws), the events each change
  records, the values written when a task is stored or completed, reading a
  stored row back, and fresh task ids.
- `keys`, `text` — ordered tenant names, whitespace trimming, decimal
  formatting.
- `cli`, `server` — command-line arguments and health answers.

`app/` is the binary around it: clap parsing, the SQLite statements, JSON
shapes, and the HTTP server and client.
