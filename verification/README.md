# work-life-buddy

A daemon for systemd-based Linux desktops that logs the user out during
configured off hours (default 18:00–07:00), after a desktop warning.

- `src/` is the verified library (Verus): the settings and their durations
  ("30m", "30s"), the command-line overrides, the off-hours window, the wait
  until it opens, the steps of a logout cycle, what follows a cycle, and the
  notifications the daemon sends.
- `app/` is the program around it: reading and writing
  `~/.config/work-life-buddy/config.toml`, the clock, sleeping, desktop
  notifications and running the logout command.
- `tests/` exercise the library on concrete values.
