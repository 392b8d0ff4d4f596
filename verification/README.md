# granary

Granary coordinates work between agents: projects, tasks with statuses,
priorities, dependencies and claims, sessions that hold what is in context,
checkpoints of sessions, and workers that react to events by running
commands or pipelines of steps.

This crate is the verified core of it, written in Verus. The functions in
`src/` carry contracts that Verus proves, except the small wrappers around
outside crates (JSON, tables, the clock, the home directory, randomness),
whose contracts are trusted and say what the outside code does; the I/O
around the library lives in `app/`.

## Layout

- `src/text.rs`, `src/json.rs`, `src/path.rs` — text, JSON values and paths,
  with their specifications (joining, trimming, splitting, ordering of texts;
  dotted paths into JSON; Unix path joining).
- `src/clock.rs` — readings of the wall clock (chrono), used by the changes
  that stamp a time; each such change also has a form that takes the time.
- `src/models/` — the records (tasks, projects, sessions, runs, workers,
  events, artifacts, checkpoints, initiatives, settings) and the names of
  their enumerations, each with a round-trip law.
- `src/output/` — the prompt and table forms of every record, and how the
  output format of a command is chosen.
- `src/services/` — the rules: event filters and templates, task state
  changes and claims, summaries, context packs and handoffs, initiative
  summaries, checkpoints and their restore, batches, search ordering, the
  settings and action catalog, the workspace registry and workspace
  resolution, worker decisions (retries with backoff, pipelines, shutdown)
  and event cursors.
- `app/` — the command line, the settings, registry and action files, the
  JSON output, and the running of pipeline steps.
- `tests/` — tests of the library on concrete values.

The laws of the library are the public `law_*` proof functions.
