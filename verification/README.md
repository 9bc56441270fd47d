# dune_manager

The verified core of a manager for Dune: Awakening dedicated servers: a
desktop tool that drives existing servers over SSH and kubectl, and an
on-host maintenance service that restarts and backs up the BattleGroup.

## Layout

- `src/` — the library, verified with Verus. Every public function has a
  contract. Functions that ask a caller-supplied `RemoteCommandRunner` (or a
  provider) state what holds of whatever it answered, and hand its answers to
  a verified function one call down whose `ensures` is exact. The laws that
  span several calls are public proof functions (`lemma_*`) next to the code
  they are about.
  - `text`, `json`, `sort`: characters, JSON documents and stable sorting,
    the vocabulary the other contracts are written in.
  - `command`: failures, the `RemoteCommandRunner` that callers implement,
    and the checks every value passes before it reaches a shell.
  - `manager_core`: kubectl operations on BattleGroups, the Hyper-V import
    flow, host and VM providers, strict commands, database settings.
  - `desktop`: dashboard parsing, BattleGroup listing and details, update
    decisions, PowerShell and shell scripts.
  - `server_service`: task schedules, the backup run, the restart decision
    and the task runner's rules.
  - `manager_api`: the records of the in-guest Manager API.
- `tests/` — tests of the library on concrete values.
- `app/` — the unverified edges: processes, SSH, the file system,
  PostgreSQL, JSON text, and the async task runner with its maintenance lock.

## Trusted code

- `text::string_push` — `String::push`.
- `server_service::restart::age_seconds` — chrono's RFC 3339 parsing and
  time arithmetic, named by `rfc3339_age_seconds`.
