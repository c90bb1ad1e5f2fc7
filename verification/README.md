# werewolf_game

The rules of the party game "Werwolf" (Werewolves), with their behaviour
stated in contracts and proved by Verus, and a small WebSocket server that
lets 3 to 16 players play it from browser tabs or their phones.

## Layout

- `src/` — the verified library.
  - `rollen`, `spiel`: roles, teams, players, the game state and its model
    (`View`), searching players, the winning side.
  - `tod`: a player's death, with the hunter's shot and the lovers' grief.
  - `phasen`: the night order, the end of the night, the day's lynching.
  - `rollen_logik`: what werewolves, seer, witch, Amor, doctor and priest
    may do, with every refusal and its message.
  - `verteilung`: dealing the roles (shuffled with `rand`).
  - `abstimmung`: the votes of the village and of the werewolves, with
    ties and their run-off.
  - `nachrichten`: the text form of the players' messages.
  - `sitzung`: one step of a session: a message in, the new state and what
    is sent out.
  - `anzeige`: names for display, the players' list, the state sent to the
    pages, the QR code (`qrcode`, `base64`) that leads to the join page.
- `tests/` — the tests of the library.
- `app/` — the server: `axum` routes, the WebSocket loop, JSON forms of the
  messages (`serde`), the HTML pages.

Properties that span several functions are stated and proved as public
proof functions whose names begin with `law_`.
