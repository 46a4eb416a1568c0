# codexbar-rs

Provider status and usage collection for local AI tooling (Codex, Ollama,
OpenAI and a mock provider), with JSON output, source selection
(`auto`, `api`, `cli`), a persisted configuration and a disk cache.

The library under `src/` is written in Verus and verified: every function
carries a contract over a mathematical model of its inputs and outputs.

- `text` — character-level utilities (trimming, `lines`, search, decimal
  numbers, ASCII case) with their specifications.
- `usage`, `status_map` — the status model: windows, snapshots, and a map
  from provider name to snapshot with unique names.
- `config`, `env`, `cache` — configuration defaults, path resolution,
  cache file names, freshness and the stale fallback.
- `providers` — the provider registry and each provider's logic; `codex_tty`
  reads the rate-limit windows from the interactive `/status` screen.
- `backend` — serving a status request from the cache or from live
  collection, and the diagnostics report.

`app/` is the command-line program around the library: argument parsing,
environment, files, HTTP, child processes and JSON serialization.
`tests/` exercises the library on concrete values.
