# kicad_ipc

A client library for the KiCad IPC API whose core is verified with Verus.

## Layout

- `src/` — the verified library:
  - `model/` — the typed board and document model, with the text and wire
    forms of its enumerations and the laws that tie them together;
  - `client.rs` — socket addresses, document selection, selection summaries,
    the client settings and the decisions taken around each request;
  - `replies.rs` — what each request asks for and what it makes of KiCad's
    reply;
  - `proto.rs` — plain values for the API messages the library reads or builds;
  - `items.rs` — one-line item descriptions and the pad netlist;
  - `args.rs`, `cli.rs`, `output.rs` — the command-line tool's argument
    parsing, helpers and printed lines;
  - `report.rs` — the Markdown board read report;
  - `numbers.rs`, `text.rs` — decimal numbers and text helpers.
- `tests/` — tests of the library on concrete values.
- `app/` — the parts Verus does not see: the socket transport, the
  protobuf messages and their encoding (`messages.rs`, `envelope.rs`), the
  async client whose requests are built and whose replies are read by the
  library, environment and filesystem lookups, the blocking wrapper, the
  error type with its `Display`, and the values that carry floating-point
  fields.
