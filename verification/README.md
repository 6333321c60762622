# runwatch

Supervises long scientific runs on this machine and on Slurm and LSF clusters,
keeps a durable ledger of them, and wakes the coding agent that waits for one.

## Layout

- `src/` is the library. Every item of it is verified with Verus: each function
  states by contract what it returns and how it changes the ledger.
- `app/` is the program around it: the command line, the daemon, SSH, SQLite,
  processes and the Run Console.
- `tests/` run the library.

| module | what it holds |
|---|---|
| `store` | the ledger: runs, attempts, retries, observations, notices, leases, agent processes; `store::laws` says what holds across requests |
| `submission`, `local_process` | how a run is checked, scripted, started and stopped |
| `probe`, `polling` | which questions hosts are asked, how their answers are read, and what follows |
| `operations` | logs, artifacts and cancelling |
| `dispatch` | agents that are started for a notice nobody fetched |
| `ipc` | requests, replies and their frames |
| `supervisor`, `autostart`, `live` | keeping one daemon running |
| `console` | what the Run Console shows and does |
| `codex`, `command`, `config`, `paths` | the integration entry, the command line, settings and places |
| `text`, `encoding`, `time`, `seqs`, `types` | what the others rest on |

## Outside code

The library calls `chrono` for dates, `serde_json` for one member of a terminal
file, `base64`, and a few functions of `std`. Each such call stands in one small
function, or has one specification, whose doc comment says what is taken on
trust.

## Data

`runwatch.db` in the data directory is the ledger. A `runs.jsonl` is read once,
into an empty ledger, and never written.
