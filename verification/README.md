# screenpipe command line

The decisions behind the `screenpipe` program, verified with Verus: where its
data lives, what it logs and prints, which requests its commands make, and what
each of them does with every answer.

- `src/` is the verified library. A command that works with the outside world is
  a machine: it is told what happened, and says what to print and what to do
  next (`pipes`, `mcp`, `migrate`, `github`). What holds of whole runs is proved
  in `pipe_laws`, `mcp_laws`, `migrate` and `traversal`; `files` is the file
  system that some of it speaks of.
- `app/` is the program around it: the command line, files, requests, channels
  and the recording engine.
- `tests/` runs the library on concrete values.
