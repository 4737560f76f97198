# eos_rs

A Rust wrapper over the Epic Online Services (EOS) C SDK, split in two:

- `src/` — the verified core (Verus). It holds the wrapper's logic on the
  Rust side of the C boundary: turning strings into NUL-terminated C
  strings and C buffers back into text, socket identifiers, the option and
  request records of platform creation, logins, lobby and peer-to-peer calls
  (fixed values included), the meaning of result codes,
  enumeration codes, handle and ownership checks, completion callbacks that
  run at most once, and the process-wide initialize / shutdown state.
- `app/` — the wrapper's public API on top of the core. It performs the SDK
  calls through the `Sdk` trait (one method per C function), keeps the
  process-wide state, and releases SDK objects on drop. The C SDK and its
  generated bindings are not part of this repository, so no implementation
  of `Sdk` is; one forwards each method to its C function, writing the
  request records into the C structures and the SDK's API version numbers.
- `tests/` — tests of the core on concrete values.
