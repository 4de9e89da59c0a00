# clock-tui (`tclock`)

A terminal clock with clock, timer, stopwatch and countdown modes.

- `src/` is the library, verified with Verus: parsing of command-line values
  (durations, sizes, colors, themes, time zones, countdown targets), the
  precedence of display options between the command line and the config
  file, the config file's search order, the resolution of each mode's
  settings, duration and header
  formatting, the stopwatch's pause logic, the clock's theme cycle and
  widget toggle, the reading of dates and times, the stepping of the timer through
  its periods, the time a countdown shows, the centered layout of the digits,
  and the routing of keys.
- `app/` is the program around it: command-line parsing with clap, reading
  `config.toml` with serde, and the terminal loop with crossterm and ratatui.
- `tests/` runs the library on concrete values.
