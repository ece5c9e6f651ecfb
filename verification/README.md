# ironclaw_turn_flow

Decision core of a chat product's turn flow, verified with Verus.

- `src/` is the library. Each flow is a run that waits on one question at a time:
  the product workflow (idempotency ledger, payload routing), the inbound turn
  (binding, references, staging, submission) and the text-only loop (prompt, model,
  transcript). `step` takes an answer to the next question. The contracts state
  every step exactly, and the public proof functions state what holds of whole
  runs.
- `tests/` drives the runs with scripted services.
- `app/` drives them with asynchronous services.
