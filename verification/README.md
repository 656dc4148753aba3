# sanctifier

Security analysis for Soroban smart contracts, with its decision logic
verified by Verus.

## Layout

- `src/` — the verified library.
  - `rules`, `syntax`: the rule interface, and the syntax model that rules
    read, filled from `syn`'s parse of the source text.
  - `missing_state_event`, `unchecked_external_call`, `custom_yaml_rules`:
    analysis rules over Rust source text; `pattern` holds the wildcard
    matcher of custom rules.
  - `soroban_v21`: the Soroban host functions and types that the rules know.
  - `analyze`, `wasm_api`: the decisions of the command-line and browser
    front ends (severity thresholds, input validation, progress and
    summaries); `report`: XML escaping, JUnit suites and the name of the
    contract a source file declares.
  - `flashloan_token`, `proxy`, `multisig`, `governance`,
    `shadowing_example`: the reference contracts, each as transitions of its
    stored state.
  - `text`, `account`: strings and addresses as the rest uses them.
- `app/` — the host side: loading YAML rule files, command-line arguments,
  the browser output types, and the Soroban contract entry points that load state, call the library and store the
  result.
- `tests/` — tests of the library on concrete inputs.

Each public function states its result in its contract; the `law_*` proof
functions state properties that hold across operations, such as that a
multisig proposal executes at most once or that a proxy's version only
grows.
