# usbip_macos

A USB/IP client for macOS, built around a library verified with Verus.

- `src/wire.rs` — big-endian integer encoding through the `bytes` crate, with
  round-trip lemmas.
- `src/usbip.rs` — the USB/IP protocol: operation requests and replies, device
  records, `USBIP_CMD_SUBMIT` commands and their replies, and the client state
  (connection, imported device, sequence numbers, commands waiting for a reply).
- `src/attach.rs` — choosing the device to attach from a server's device list.
- `src/controller.rs`, `src/device.rs`, `src/endpoint.rs` — the decisions of the
  virtual USB host controller: capabilities, commands, doorbells, control and
  normal transfers.
- `app/` — the command-line program: argument parsing, the TCP connection
  (tokio), and the IOUSBHost framework calls that carry out the controller's
  decisions (macOS only).
- `tests/` — tests of the library on concrete values.
