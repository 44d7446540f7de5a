# tentacli

The rules of a World of Warcraft (WotLK) client, verified with Verus.

- `src/` is the library. `reader` and `writer` are the packet framing of a
  connection as state machines (headers, the first unencrypted packet after
  the switch to the world server, warden bodies); `dispatch` is the read
  task's processors and one-time handlers; `output` routes handler outputs
  and builds the console lines; `text` writes the status messages;
  `realm` holds the realm feature's processors and the spell handlers;
  `connection` sets up a fresh connection's halves; `wire` reads
  fixed-width integers through `byteorder`.
- `app/` is the program around it: configuration, sockets, tokio tasks and
  channels. It calls the ciphers, the opcode table and the packet handlers
  of the client's own companion crates (`tentacli_crypto`,
  `tentacli_traits`, `tentacli_utils`), which this repository does not
  contain; the realm feature's processors are wired there once those
  crates are present.
- `tests/` runs the library on concrete values.
