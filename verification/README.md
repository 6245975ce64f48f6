# telegram_task_bot

The core of a Telegram bot for task intake, assignment, review, blockers,
comments, reminders and manager views, written in Verus: the decisions the
bot makes (what to store, send, refuse or skip) are executable functions with
`requires`/`ensures` contracts that Verus proves; app/ only loads, stores and
sends what they decide.

Layout:

- `src/domain` — tasks and their status machine, people and names, deadlines
  and the working calendar, SLA, quiet hours, voice transcripts, errors.
- `src/application` — the use cases as functions from loaded data to what
  should be stored or sent, the role policy, the views shown to users.
- `src/text.rs`, `src/time.rs`, `src/task_codes.rs`, `src/config.rs` —
  character sequences, dates and zones, public task codes, settings.
- `tests/` — scenario tests over the library.
- `app/` — the runtime around it: environment, storage and messaging ports,
  JSON forms, and async drivers that load, ask the library and store.

Calls into `chrono`, `chrono-tz`, `cron`, `regex`, `strsim`, `uuid` and the
std Unicode tables sit behind small trusted wrappers whose contracts state or
name what those functions compute.
