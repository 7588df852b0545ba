# tramp-rpc

The protocol and file-metadata logic of a TRAMP-RPC server, verified with Verus.

- `src/value.rs`: MessagePack values (`Value`, `Integer`) with a mathematical
  model (`ValueModel`), and `IntoValue`, the conversion of plain values.
- `src/protocol.rs`: requests, responses, notifications, RPC errors and their
  codes, file types, and the named-field maps of file attributes, directory
  entries and process results; the exit code of a finished process.
- `src/file.rs`: what the file handlers decide around their system calls:
  I/O errors to RPC errors, file types from metadata, the replies of
  `file.stat` and `file.truename`, the buffer growth of user and group name
  lookups and their cache, and `~` expansion in paths (on the path read as
  UTF-8 text, through a trusted wrapper of `String::from_utf8_lossy`).
- `app/`: the serde forms of the protocol types, conversion to `rmpv`, and the
  handlers themselves, which make the system calls (`tokio::fs`, `libc`).
