# bank_query

A lookup service for bank codes (联行号) and financial institution names.

- `src/` is the verified library (Verus): reading bank records out of xlsx
  workbooks and their rows (`excel`), the import template, the configuration
  and its defaults (`config`), the command line (`cli`), the search pattern
  and response (`db`), and the replies of the web service and the lines of
  the command-line tool (`reply`, `console`), with the string helpers they
  rest on (`text`).
- `app/` is the program around it: argument parsing with clap, the TOML
  configuration file, the SQLite database, and the warp web server.
- `tests/` runs the library on concrete inputs.
