# aberred

Engine resources of a compact 2D game engine, verified with Verus:
input state and its script snapshot, rebindable input bindings and their
text forms, game-state transitions, the INI game configuration, GUI themes,
tracked entity groups, and the bookkeeping of the scripting layer (the
pooled entity context and the pooled input table).

Layout:

- `src/` — the verified library. Each module states its behaviour in
  `requires`/`ensures` over spec functions and views; the public
  `lemma_*` proof functions state properties that span several calls
  (text round trips of bindings, save-then-load of the configuration,
  the entity context tracking the latest snapshot, and so on).
  The INI parsing is done by `configparser`, behind a handful of trusted
  wrappers in `src/gameconfig.rs`.
- `tests/` — tests of the library on concrete values.
- `app/` — ordinary Rust around the library: the configuration file and
  its floating-point settings, ECS resource wrappers, text measurement, the
  GUI scissor rectangle and the typed state store of GUI callbacks.

Not in this crate: the Lua scripting bindings (the `engine` API, the entity
builder, command queues and function cache), the drawable snapshot built
from ECS queries, the immediate-mode GUI bridge, the 2D camera and camera
follower, fonts and audio. They are glue over the Lua runtime, the
renderer and the GUI library, or floating-point geometry. The library keeps
the decisions of the scripting layer that are plain values (the pooled
entity context and input table plans, the script-side configuration cache).

Saving and then loading the configuration is shown over the INI entries
(`lemma_saved_settings_reload`), not over the written text. Through the
text it fails for a window title holding `;` or `#` (the parser cuts inline
comments there), or leading or trailing whitespace (it trims values), and
for a background color that is not opaque (saved without alpha).
