# fns_cli

A headless client for bidirectional, near real-time sync of an Obsidian
vault with a Fast Note Sync server, with its sync logic verified in Verus.

## Layout

- `src/` — the verified library: the wire protocol (action names, text
  messages, binary chunk frames and their reassembly), content hashing, the
  command-line grammar, configuration defaults and validation, the WebSocket
  client's state (addresses, authentication, message queue, back-off), the
  file watcher's event rules, the debouncer, the echo caches, and the note,
  file, setting and folder engines with the coordinator that routes local
  changes and server messages between them.  Every public function states
  what it returns or changes; the laws of the library (echo suppression,
  chunk round trip, back-off bounds, exclusion of ignored paths, and more)
  are public proof functions.
- `app/` — the program around it: command dispatch, reading the YAML
  configuration and the state file, the WebSocket connection, the vault on
  disk, the `notify` watcher, logging and progress display.
- `tests/` — tests of the library on concrete values.
