# piri

A helper daemon for the niri Wayland compositor: window rules, swallowing of
child windows into their parent's column, scratchpad placement and related
plugins.

The decision logic lives in `src/` and is verified with Verus:

- `config.rs`: the configuration model, its defaults, scratchpad directions
  and sizes, and reading a scratchpad from a TOML table.
- `plugins/window_utils.rs`: windows and workspaces, regex window matching with
  a pattern cache, workspace lookup, scratchpad geometry, the window-to-process
  map and process-tree parent search, and the action list of a swallow.
- `plugins/window_rule.rs`, `plugins/swallow.rs`: the state and decisions of the
  two plugins.
- `plugins/mod.rs`: plugin kinds, events and the start/update/stop decision.
- `utils.rs`: the throttle; `text.rs`: text helpers (whitespace splitting,
  decimal numbers); `clock.rs`: the monotonic clock.

`app/` holds what talks to the outside world: the niri socket, `/proc`, shell
commands, notifications, configuration files and the async plugin runtime.
