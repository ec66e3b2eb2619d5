# h2l

A small HTTP/2 link library: a frame codec, the handshakes that open a
connection, and the bookkeeping of clients, servers and their links.

- `src/` is the verified library. `frame/` reads and writes frames
  (headers, DATA, HEADERS, SETTINGS, GOAWAY, RST_STREAM, WINDOW_UPDATE,
  PRIORITY, PUSH_PROMISE, CONTINUATION and the library's BINCODE frame);
  every loader and encoder has a contract over the bytes, and the
  `lemma_*_roundtrip` proofs show that decoding an encoded frame gives it
  back. `link.rs`, `client.rs` and `server.rs` hold the state words and the
  decisions of the connection loops (`writer.rs` those of the writer
  loops); `handshake.rs` checks the HTTP/2
  preface, the HTTP/1.1 upgrade to `h2c` (parsed by httparse) and the
  server's first SETTINGS frame.
- `app/` is the asynchronous layer (async-std streams and channels) that
  performs the I/O and runs the loops; the frames it reads and writes and
  the decisions of its loops (handshake steps, which frames a link reads,
  when to accept, write or stop, routing, the link table, flag updates)
  come from the library.
- `tests/` exercises the library on concrete values.
