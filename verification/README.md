# pha

The launch logic of the `pha` multiplayer game template, as a library whose
contracts are proved with Verus, and the launcher program around it.

- `src/` — the verified library:
  - `time_span`: nanosecond time spans, built from and read as milliseconds.
  - `ipv4`: IPv4 addresses, their dotted-decimal text, and a parser proved to
    accept exactly the canonical texts (parse and print are inverse).
  - `launch_options`: client, server and shared launch settings, their
    settings-file forms, defaults, and the conversions between them, with
    round-trip laws.
  - `launch`: what the launcher starts from the command line and the settings
    (transports, authentication, server modes and app shape).
  - `web`: what a browser client starts.
  - `replication`: how characters, camera holders and view directions are
    replicated, and which characters are spawned.
  - `game_flow`: level asset loading and post-processing, the client's game
    states, the local player, the system menu, the ground marker.
- `app/` — the native launcher: it reads the command line and the settings
  files (RON), checks that the WebTransport certificate and key files can be
  read, decides the launch with the library, and prints the resulting launch
  plan. That check is weaker than loading the certificate: the game's
  networking stack parses the PEM pair (and takes the certificate's hash,
  whose text `launch::certificate_digest_text` turns into the announced
  digest), but that stack is not a dependency here, so a file that can be read
  but does not parse still counts as present.
  It does not start the game engine or the networking stack, and there is no
  browser launcher: the browser client's decisions are in `src/web.rs` only.
  `app/` also holds the floating-point gameplay helpers (look orientation,
  character movement and damping, level layout); the launcher does not call
  them, as they belong to the engine systems.
  `glam` is a dependency only for these helpers: it is the vector and
  quaternion library whose types the game engine's math is made of.
- `tests/` — tests of the library on concrete values.
