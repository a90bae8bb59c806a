# nephila

The verified core of the Nephila agent runtime: the operator dashboard's
state machine, the session pane's line editor, the event store's sequencing,
subscription and retention rules, the decoding of stored rows, and the
lagged-subscription retry policy. Verus proves every function in `src/`
against its contract, except the few small wrappers that
call an outside crate (UUID and RFC 3339 parsing, BLAKE3, JSON, UTF-8
checking, the terminal layout solver, `String::push`): those are marked
`#[verifier::external_body]`, and their contracts, which say only what
those crates document or their sources show, are assumed. Where an outside
result is left open (a fresh random id, where the layout solver places a
part inside its area), the functions that use it state only what holds
whatever it is.

## Layout

- `src/` — the library, verified with Verus.
  - `dashboard.rs`, `keys.rs`, `focus.rs`, `modal.rs`, `modal_view.rs`,
    `hotkey.rs`, `tree.rs`, `layout.rs`, `event_log.rs`, `notices.rs`:
    what the dashboard shows and how it answers keys and bus events.
  - `input.rs`, `session.rs`, `lines.rs`, `text.rs`, `format.rs`: the
    session pane, its line editor and the text forms it shows.
  - `sequencer.rs`, `store_policy.rs`, `subscription.rs`, `retry.rs`,
    `metrics.rs`: per-aggregate sequence numbers, snapshots, retention,
    subscriptions and their retry policy.
  - `agent.rs`, `agent_record.rs`, `objectives.rs`, `interrupt_record.rs`,
    `event_record.rs`, `checkpoint_record.rs`, `span_record.rs`, `json.rs`,
    `ids.rs`: stored rows and how they decode.
  - `goals.rs`, `paths.rs`, `blob.rs`, `log_buffer.rs`: goal files and
    how their paths are named and ordered, payload spill-over and the
    workdir lock name, and the in-memory tracing buffer.
- `app/` — the runtime around it: the terminal, SQLite, files, the editor,
  tracing and the event loop. It hands the library plain values and carries
  out the effects the library answers with.
- `tests/` — tests of the library's public functions.
