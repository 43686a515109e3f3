# pqc_chat

The client side of an end-to-end encrypted group chat with post-quantum key exchanges, written in
Verus: what each function does is stated in its contract and proved.

* `src/protocol.rs` holds the messages, `src/wire.rs` their binary form.
* `src/crypto_engine.rs` holds a client's keys and everything that is computed with them,
  `src/peers.rs` the table of its peers.
* `src/client.rs` is the state machine: it is fed network messages and says what to send.
* `src/error.rs` says what can go wrong.
* `src/laws/` states what holds of all this together: messages are read back as they were written,
  two ends that ran a key exchange understand each other, a client stays sound whatever it is
  sent, nobody is authenticated without proving that it holds the session key.
* `src/primitives/` is the boundary to the cryptographic crates. The contracts there are believed,
  not proved; each says in its doc comment what it claims.
* `tests/` runs the library against the real crates, with known answers for the ciphers and the
  key derivation.
* `app/` carries the messages with `serde`'s traits and the errors with `Display` and `Error`.
