# secs_transport

SECS-I (SEMI E4) and HSMS (SEMI E37) transport state machines, and the
SECS-II runtime bookkeeping above them, written in Verus with their
behaviour stated as contracts and proved.

- `src/` — the verified library.
  - `common`, `bytes`, `error`, `time`: identifiers, big-endian encodings,
    errors, timeout tickets and the timeout manager.
  - `secs1_block`, `secs1_transfer`, `secs1_machine`: SECS-I blocks with
    their checksum, the block transfer protocol (line control, send, receive,
    T1/T2, retries) and how its events reach the message layer.
  - `hsms`, `hsms_assembler`, `hsms_session`, `hsms_transaction`,
    `hsms_machine`, `hsms_transport`: HSMS headers and frames, frame
    assembly, the select/linktest/separate session, message transactions
    with T3, the message machine, and the transport that joins session,
    machine and a byte stream.
  - `runtime`, `web_source`: SECS-II messages keyed by transaction, calls
    waiting for replies, request contexts, the SECS-II layer, and the state
    of a browser-fed byte source.
- `tests/` — tests of the library.
- `app/` — the unverified host side: `sansio::Protocol` impls, serde
  configuration, handler routing, and browser bindings.

Not here: the SECS-I message layer (the machine that splits SECS-II
messages into blocks and joins them again, with its transactions), which
this crate does not carry; only the block transfer below it and how its
events are passed up are. Also not here: the host loop that ties a
transport, a timer and waiting callers together (`SecsRuntime` with its shared handle); its
bookkeeping — queued commands, calls waiting for replies, receive waiters
and what an expired timer ends — is in `runtime_shared`.
