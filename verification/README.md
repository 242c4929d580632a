# geph_tui

A terminal client for the Geph 5 proxy daemon, split into a verified library
and a thin program around it.

The library (`src/`, checked by Verus) holds the client's decisions:

- `model` — the interface state, the preferences, keys, tabs and fields.
- `keys` — the key-handling state machine: what each key does to the state
  and which daemon action follows, with laws about it (Up/Down undo each
  other, toggles are involutions, editing a field and leaving it changes
  nothing, a second start with the same secret does not clear the token cache).
- `poll` — what the periodic polling of the daemon does to the state: running
  state, account level and its notices, region list, news, registration.
- `exits` — the region list: usable exits, one per region, sorted by code.
- `sessions` — open sessions grouped by exit region, busiest first.
- `view` — the lines, colours, rows and scroll limits of the four tabs.
- `daemon` — the settings the daemon is started with, and the decisions
  around starting and stopping it.
- `rpc` — the line-delimited framing of control calls.
- `cli` — the command line and the `--ctl` commands.
- `text` — port parsing, decimal text, line splitting, string order.
- `laws` — properties that span several of the above.

The program (`app/`) does the input and output: the terminal, the daemon
process, TCP, files, and the preferences on disk. It reads the daemon's
default configuration from `default-config.yaml` next to the executable.
