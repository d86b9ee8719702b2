# ratzgo

A composable, Elm-like framework for terminal user interfaces built on
ratatui, split in two parts:

- `src/` is the verified library (Verus). It holds the framework's
  decisions: how scroll offsets move and are pulled back inside the content
  (`scroll`), how list and table selections move (`component`), which child
  a key, paste or click goes to (`component::routing`), the strips of a
  block's border (`component::border`), scrollbar values, key bindings
  (`base::action`), the first-in first-out message buffer, the debouncer's
  versions and pending task, the bookkeeping of a round over several event
  sources, and the event loop's step decision (`event`), and log levels.
- `app/` is the terminal side: the widgets that draw with ratatui, the
  event loop on compio, and logging over flume. It hands the library plain
  values and acts on what comes back.

`tests/` runs the library, including comparisons with ratatui's own region
arithmetic and with the floating-point percentage of a viewport.
