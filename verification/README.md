# mechaflow

An automation framework — devices, protocols, workflows, state machines,
rules and scheduling — whose core logic is written in Verus and proved
against its contracts.

## Layout

- `src/` — the verified library.
  - `mechaflow_core` — errors, identifiers and dynamically typed values,
    configuration and its defaults, event shapes, the runtime's component
    registries, and the decisions behind timeouts and retries.
  - `mechaflow_devices` — device descriptions, states and property
    validation, the device registry, discovery, connection strings, the
    protocol registry, the MQTT protocol's bookkeeping and the thermostat's
    control decisions.
  - `mechaflow_engine` — state machines, triggers, conditions, actions,
    rules, workflow contexts, workflows and the scheduler's admission rules.
  - `str_map` and `text` — a string-keyed map and character-level text
    helpers used throughout.
- `tests/` — tests of the library on concrete values.
- `app/` — what runs around the library: configuration loading, logging,
  the event bus, the async runtime, device drivers (including the
  floating-point thermostat simulation) and the executors of actions,
  conditions, rules and scheduled executions.

Floating-point values are carried in the library as their IEEE-754 bit
patterns; the library compares and classifies them, and `app/` does the
arithmetic on them.
