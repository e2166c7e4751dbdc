# ark_cluster

The control plane of a private ARK: Survival Evolved smart cluster — one Home
map that is kept online, on-demand travel slots started when players ask for
a map, and external travel nodes — with its rules verified by Verus.

## Layout

- `src/` — the verified library. Every public function carries a `requires` /
  `ensures` contract over mathematical models (`Seq`, `Map`, spec functions).
  - `config` — the manager configuration and its validation.
  - `operations`, `policy`, `governor` — the guards on systemd actions and
    backups, the resource guard for travel, idle shutdown and Home Resource
    Standby.
  - `travel`, `maps`, `dashboard` — travel decisions and the dashboard's map
    list.
  - `rcon` — the RCON packet format, chat parsing, travel commands in chat,
    and the per-slot runtime state.
  - `backup`, `config_edit`, `admin`, `runtime`, `systemd`, `resources` —
    backup paths and records, shared ini editing, mods and maintenance,
    readiness checks, `systemctl` status parsing, `/proc` parsing.
  - `nodes`, `agent` — node pairing, tokens, heartbeats, sessions and tasks,
    and the node agent's decisions.
  - `text` — verified string helpers the rest is built on.
- `tests/` — tests of the library on concrete values.
- `app/` — the HTTP server, SQLite storage, host I/O, the RCON connection,
  the polling loop and the node agent, all calling into the library.

The public proof functions (`lemma_*`) state the properties that hold across
operations, for example that a stop is never allowed while players are online
under the never-stop policy, or that an RCON packet decodes to what was
encoded.
