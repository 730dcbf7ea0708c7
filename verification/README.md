# stacks_parser

Parsers for the building blocks of Stacks transactions (transaction
versions, hash modes, asset information, contract and clarity names,
addresses, principals and length-prefixed strings), written in Verus and
proved against byte-level specifications.

- `src/parser_common.rs`: the parsers, each with a spec function that says
  what it reads, what it leaves and which error it reports.
- `src/format_laws.rs`: properties of the format as a whole (parsed values
  re-encode to the bytes read, encodings parse back, trailing bytes do not
  change a parse, `read_as_bytes` agrees with `from_bytes`).
- `src/nom_calls.rs`: the calls into `nom`, with the contracts that nom's
  source supports.
- `src/ffi.rs`: the decisions of the C interface on plain values.
- `src/error.rs`, `src/c32.rs`: error codes and address version bytes.
- `app/`: the `#[repr(C)]` layouts, their conversions to the library's
  plain-value model, raw-pointer wrappers around context initialisation, and
  the exported `_validate`.
