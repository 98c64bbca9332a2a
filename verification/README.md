# gromnie_client

A headless client for Asheron's Call servers, with its protocol logic and
session state machine verified by Verus.

- `src/` is the verified library: packet headers, the wire encoding of the
  client's packets and of its LoginRequest, reassembly of server messages from
  fragments, the handshake and keep-alives, the scene state machine, inbound
  message handling (with the byte tests that keep malformed input away from
  the message readers), the outgoing message queue, configuration paths and
  lookups, the launch wizard, and the session decisions and argument checks of
  the mobile bridge. Calls into `asheron-rs` and `rand_isaac` go through small
  trusted wrappers whose contracts are documented beside them. `src/laws.rs`
  holds the properties that span several operations.
- `tests/` runs the library on concrete values.
- `app/` is the program around it: command-line parsing, reading and writing
  the TOML configuration, the clock, the UDP loop, and the C interface of the
  bridge. Outgoing packets carry the checksum placeholder: no checksum routine
  is part of this project.

Verify with Verus by pointing it at `src/lib.rs` with the outside crates of
`Cargo.toml` built.
