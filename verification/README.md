# mihomoctl

A terminal client for the external controller API of Clash and Mihomo,
whose core is verified with Verus.

- `src/` is the verified library: the controller kinds and the API
  operations with their endpoints, the state of the terminal interface and
  how it reacts to keys and to what the background worker reports, the
  lists, popups and proxy tree, the search of rules (addresses against
  networks), the ordering of connections, the rows, footers and scroll
  windows the pages draw, the status figures, the table of servers, and
  the requests each API operation makes. Calls into `serde_json`, `url`,
  `urlencoding`, `bytesize` and a few `std` string functions stand behind
  small trusted wrappers whose contracts are stated in their doc comments.
- `tests/` exercises the library on concrete values.
- `app/` is the program around it: command line, configuration files,
  HTTP and WebSocket requests, the terminal, and the threads that tie them
  together.
