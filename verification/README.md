# once

Build once. Recognize it thereafter: `once` decides whether a Nix check may be
skipped because a trusted build trace already records the realization of its
fully resolved derivation.

## Layout

- `src/` is the verified library (Verus):
  - `policy.rs` — the policy engine, from a build-trace query to a decision,
    an action, an exit code and the result envelope;
  - `nix.rs` — what is asked of Nix and what its answers mean: version
    parsing, evaluation and build-trace output, the doctor, and the
    step-by-step loading of a policy pinned to a full Git commit;
  - `cli.rs` — the command session: which request follows which outcome, for
    `check`, `resolve`, `trace`, `trust`, `explain`, `run` and `doctor`;
  - `config.rs`, `types.rs`, `trace.rs`, `backend.rs`, `error.rs` — the data;
  - `views.rs` — the focused views of `resolve`, `trace`, `trust` and the
    native trace that `explain` narrates;
  - `report.rs` — the human text of the result, of each view, of the doctor
    and of the GitHub step summary;
  - `version.rs`, `json.rs` — the calls into `semver` and `serde_json`;
  - `text.rs` — character-sequence helpers with their meaning;
  - `laws.rs` — properties of the engine as a whole.
- `app/` is the program around it: command-line parsing, running Nix, reading
  files and the environment, serde parsing and printing.
- `tests/` holds the tests of the library.
