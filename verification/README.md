# hortpro_checker

A command-line checker that asks the HortPro parent portal whether a child is
at daycare, remembers the last status between runs, and raises a desktop
notification when the child arrives or leaves.

- `src/` is the verified library (Verus): the decisions on API answers
  (`api`), the presence status of the newest record, the day-boundary aware
  transition table and photo payload decoding (`state`), the `notify-send`
  command line and exit handling (`notify`), calendar values and the RFC 3339
  parse (`calendar`), and the command-line model (`cli`).
- `app/` is the program around it: argument parsing with clap, HTTP with
  reqwest, JSON with serde, files, and running `notify-send`.
- `tests/` runs the library on concrete values.
