# haruna_bot

A QQ group bot (OneBot protocol: events over a websocket, requests to an
HTTP API) whose command logic is written in Verus and proved against its
contracts.

## Layout

- `src/` — the verified library.
  - `msg`, `config`: incoming events, the two configuration files, black
    and white lists, routing of an event (`msg_analysis`).
  - `reply`: building replies from CQ codes and the requests that carry
    them (`send_msg`, `send_forward_msg`, pokes).
  - `handler`, `regin`: the handler interface, the registered handler lists
    in the order they are tried, and picking the first ready handler that
    takes an event; sub-command help.
  - `gc_name`, `gcm`, `gcqr`: game centers — the names table, the
    management commands (`/机厅管理 ...`) and head-count queries and reports
    (`大玩家几`, `大玩家3`, `大玩家+1`, `大玩家-1`).
  - `store`: the writes to the game-center tables that those commands
    decide on.
  - `plusone`, `ttt`: the repeater and tic-tac-toe.
  - `emoji`, `photo`, `image`: stickers, picture commands, and the pixel
    edits (mirroring, inverting) on RGBA buffers.
  - `misc`, `notice`: `test`, `娱乐`, `help`; poking back, join and leave
    greetings.
  - `text`, `clock`, `dash`: character-sequence helpers with their specs,
    the local clock (chrono) and the `DashMap` declaration.
- `tests/` — tests of the library on concrete values.
- `app/` — the program around the library: configuration files, the
  websocket and HTTP connections, running the database queries and writes,
  and picture decoding, drawing and GIF encoding (animated pictures are
  written frame by frame with the `gif` crate's encoder).

Each public function states its result in `ensures`; the `law_*` proof
functions state properties that span several calls.
