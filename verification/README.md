# pgoutput

Decoding of the messages that PostgreSQL's `pgoutput` logical replication
plugin sends, with contracts proved by Verus.

- `src/wire.rs`: big-endian integers and NUL-terminated strings, as spec
  functions over byte sequences and as the readers that meet them.
- `src/utils.rs`: the `StaticSizeEvent` and `DynamicSizeEvent` traits and the
  size check that every decoder goes through. Each event states its size in
  an open spec function (`spec_buffer_size`, `spec_min_buffer_size`) that its
  constant is proved equal to, so callers see which sizes are accepted.
- `src/options.rs`: the plugin's options, one type per value, and the options
  string.
- `src/events/`: one module per family of messages. Each message type has a
  view, a spec function that says what a buffer decodes to, and a predicate
  that says which buffers its decoder reads whole. `event.rs` dispatches on
  the kind byte.
  `parse_checked` and `is_parse_defined` answer, for any buffer, whether the
  decoder reads it whole, and decode it where it does.

The proof functions named `lemma_*_streaming_layout` state that each message
sent inside a streamed transaction is the transaction id followed by the same
message as it is sent outside one; the `lemma_*_char_roundtrip` functions
state that each kind of message has a byte of its own; the `*_prefix` lemmas
of `tuple_data.rs` state that the bytes after a row do not change how it
decodes.
