# buffr

The shell of a keyboard-driven web browser: a verified library that decides, and
a program around it that reads clocks, windows, sockets and files and performs
what was decided.

- `src/` is the library. Every function has a contract that Verus proves. What
  holds across functions stands beside them as proof functions named `law_*`.
- `tests/` runs the library on concrete values.
- `app/` is the program: the browser, its watchdog, the engine's helper and the
  stand-in, told apart by the name they are run under.

## Modules

| Module | What it decides |
| --- | --- |
| `paint_policy`, `frame`, `render` | whether a frame is painted, what it holds, when a surface texture may be asked for |
| `popup`, `tabs`, `app_state` | popup windows, the tab strip, the window title, closing tabs |
| `session`, `restore` | which tabs are saved, and how they come back |
| `single_instance` | which process owns a profile, what a later launch may hand over |
| `supervisor`, `helper`, `stub` | the watchdog and the small programs |
| `keys`, `overlay`, `commands`, `suggestions`, `prompts`, `edit_focus`, `swipe` | where input goes and what it leads to |
| `windowing` | the windowing system's events in the browser's terms |
| `html`, `profile`, `startup`, `favicons`, `wayland_globals` | the new-tab page, profile directories, command-line plans, icons, compositor globals |
| `text`, `order`, `fixed`, `id_map` | strings, sorting, fractions, maps by identifier |

Moments and durations are nanoseconds, fractional amounts are in units of
1/65536, paths are strings joined with a slash.
