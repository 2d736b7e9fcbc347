# multiplayer

Verified core of a multiplayer board-game system in which one player's
client hosts the game and a relay server forwards messages.

- `src/board.rs` — the 3×3 board: lines, fullness, cell updates.
- `src/leptos_tic_tac_toe.rs`, `src/dioxus_tic_tac_toe.rs` — the two rule
  sets (the second adds a grayed-out square per turn).
- `src/backend.rs` — the host-side backend that judges moves and queues
  commands (broadcasts, timers, kicks, closing the room).
- `src/wire.rs` — framing of the binary messages exchanged with the relay.
- `src/ui.rs`, `src/session_flow.rs`, `src/dioxus_flow.rs` — what the game
  screen offers and sends, and the decisions of the two front ends' network
  tasks.
- `src/accounts.rs` — registration rules, paging and error answers of the
  account endpoints.
- `app/` — the WebSocket connection, serialized forms of game values and
  HTTP answers; it carries out what the library decides.
