# remote_runner

Runs a program on another machine. The client uploads an executable, the server
runs it, and the client prints what the program writes to its standard streams.

- `src/` holds the rules of the exchange, verified with Verus: the messages
  (`message`), their framing on the wire (`frame`), and what the server
  (`server`) and the client (`client`) do next after each event. What the rules
  promise as a whole is stated by the proof functions named `law_...`.
- `app/` holds the two programs around it: sockets, processes, files, the
  terminal, and the messages as bincode writes them.
- `tests/` runs the library on concrete values.
