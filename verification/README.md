# lib: a verified sans-IO D-Bus client

The library writes D-Bus messages into caller-provided buffers and reads
decoded incoming messages; it performs no I/O. Every function is verified
with Verus against a contract.

Incoming messages reach the library already decoded: an `IncomingMessage`
holds its header fields and its body as `IncomingValue`s. Turning received
bytes into these values (and the decoding errors that can arise there) is the
job of the connection code that calls the library, so no function here reads
raw incoming bytes or reports a decoding error.

Layout of `src/`:

- `wire.rs`: the wire format as a mathematical model (`Wire`, `marshal`).
- `encoder.rs`: headers (`HeaderSpec`), whole messages (`message_bytes`),
  the value writers (`put_*`, arrays) and `MessageEncoder`; the framing law
  `lemma_message_frame`.
- `incoming.rs`: decoded incoming values and messages, and `carries`, which
  says which decoded value stands for which written one.
- `introspectable.rs`: recognising the standard introspection, properties
  and peer calls.
- `messages/`: the calls, replies and signals of the bus daemon,
  NetworkManager properties, the StatusNotifierItem side (`sni_client`: the
  item and its dbusmenu) and the host side (`sni_host`).

Laws that span several functions are public proof functions next to the
functions they speak of, for example `lemma_host_reads_menu_layout`
(a host reading a menu's layout reply gets the menu back),
`lemma_menu_reads_host_event`, `lemma_item_reads_property_get`,
`lemma_unsubscribe_undoes_subscribe` and the `*_subscription_matches` lemmas.

Tests under `tests/` check exact bytes of encoded messages and the reading of
incoming values.
