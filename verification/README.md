# rs_utp

A small core of the uTP (Micro Transport Protocol), with machine-checked
proofs of its contracts.

- `src/packet.rs` — the 20-byte header and packet wire format, with decode /
  encode round-trip proofs.
- `src/buffer.rs` — receive-side reassembly of out-of-order payloads, with an
  in-order delivery proof.
- `src/conn.rs` — the per-connection handshake state machine.
- `src/socket.rs` — the connection table that dispatches incoming packets.
- `src/utils.rs`, `src/time.rs`, `src/stream.rs` — sequence-number ring
  arithmetic, timestamps, stream handles.
- `app/` — the unverified I/O side: the process clock, the tokio UDP socket
  that drives the table, `bytes` buffer adapters and displayable errors.
