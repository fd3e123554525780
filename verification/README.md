# ft — secure peer-to-peer file transfer

Two peers agree on a session key with an ephemeral X25519 exchange, the sender offers a
file (name, size, SHA-256 digest), and on acceptance sends it in 256 KiB chunks, each
encrypted with AES-256-GCM and acknowledged by the receiver with the offset it has reached.
At the end the receiver checks the SHA-256 digest of what arrived against the one the
request announced, and refuses the transfer on a mismatch.
Messages travel as frames: `MAGIC` (5 bytes), the payload length (4 bytes, big-endian) and
the JSON payload.

- `src/` is the library, verified with Verus: the message model and the frame format
  (`protocol`), encryption and digests (`security`), the frame header, the key exchange and
  both peers' decisions (`network`), the chunked transfer (`file_transfer`), and TLS
  configurations built from PEM text (`tls`).
- `app/` is the command-line program around it: argument parsing, TCP streams, files,
  progress bars, the JSON encoding of messages, and the reading of the PEM files.
- `tests/` runs the library on concrete inputs.
