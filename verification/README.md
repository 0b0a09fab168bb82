# pada

PADA diagnoses Rust programming assignments: it reads compiler output and
test results, classifies errors into Rust knowledge points, and gives hints in
five levels, optionally enriched by an OpenAI-compatible model.

## Layout

- `src/` — the library, verified with Verus. Every function states what it
  returns in its contract, and the laws of the library are proof functions
  (`law_*`).
  - `analysis/` — reading rustc diagnostics, classifying them, base hints.
  - `agent/` — tutor commands, step-by-step mode, prompts, reading the
    model's streamed answer (`sse`, `stream`), model hint planning
    (`solution`), knowledge mapping of failed tests, export dialog, repeated
    verification runs.
  - `config/` — effort policies and call budgets, model profiles, the
    configuration wizard's answers.
  - `tools/` — compiler command lines, judging test runs, test generation
    prompts.
  - `report.rs`, `storage.rs`, `telemetry.rs`, `text.rs`, `path.rs` — reports,
    data directory layout, token budgets, and the text and path functions the
    rest is built on.
- `app/` — the command-line program: files, processes, HTTP, threads,
  terminal dialogs, serialisation, and the statistics that use floating point.
  It asks the library for every decision.
- `tests/` — tests of the library.
