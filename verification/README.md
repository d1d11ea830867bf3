# qomm_avalanche_vm

The consensus state machine of the DeFMI virtual machine, verified with Verus.

- `src/` is the library. A transaction is decoded (`decode`), approved
  (`endorsement`) and carried out (`execution`) against the replicated state
  (`state`). Every function states the outcome on a mathematical ledger: the
  records afterwards, or the reason of the refusal. `block` and `genesis` hold the
  wire forms, with their round-trip laws.
- The laws that span transactions stand in `execution/laws.rs`, `replay.rs`,
  `hold_laws.rs`, `note_laws.rs`, `admission_laws.rs`, `settlement_laws.rs`,
  `book_laws.rs`, `application_laws.rs` and `application_recovery.rs`.
- What the signing domain, the proof systems and the two books compute enters the
  library as plain values: a `seal`, a `shape`, a `statement`, findings, or an
  answer. Where a verdict depends on the state, the library gives the question, as
  `quorum_check` or `settlement_checks`; the verdict carries it back, and one on
  another question is refused. A book that answers must hold what was asked for,
  and nothing else in it may have changed (`execution/book_question.rs`,
  `execution/clearing_question.rs`).
- Hashes, signatures, group elements, hexadecimal and base64 are called through the
  trusted functions in `crypto.rs`, `text.rs` and `genesis.rs`.
- `app/` parses JSON and joins the library with a host that supplies the signing
  domain and the books.
- `tests/` runs the library on concrete values.
