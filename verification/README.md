# wall_e

A hardware wallet for Ethereum (an ESP32 device with a small screen and one button) and
the terminal client that drives it over a serial link.

- `src/` is the verified library: the message types, the wallet's state machine (seeding,
  PIN protection, unlocking, signing, receiving, wiping, restoring), BIP-39 entropy
  recovery, EIP-55 addresses, RLP encoding of EIP-1559 transactions, serial framing, the
  device loop's decisions, the client's transaction form and its page state machine, and
  the texts shown for errors and signatures. Calls into cryptographic and encoding crates
  go through small trusted wrappers whose contracts are stated in their doc comments.
- `app/` is the terminal client (ratatui, crossterm, serialport) and the device's main loop
  written against small hardware traits, flash storage and screen drawing; it also holds
  the serde forms of the message types.
- `tests/` runs the library with the real outside crates.
