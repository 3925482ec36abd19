# zencan

A verified core for talking to CANopen nodes over a CAN bus, with an interactive shell built on
it.

## Layout

- `src/` is the library, verified with Verus:
  - `can` — CAN frames and identifiers, and the send/receive traits an interface implements.
  - `protocol/` — the CANopen messages (NMT, SYNC, heartbeat, SDO, LSS) and their byte
    encodings, with their decode-after-encode round trips proved.
  - `object_model/` — object dictionary metadata, PDO configuration (the writes that configure
    a PDO, and the proof that reading them back gives the configuration), time values.
  - `sdo_client` — the SDO transfer state machine: it says which frame to send next and reads
    each response, for expedited and segmented transfers in both directions.
  - `sdo_block` — block downloads and uploads: the block frames, the segment numbering and
    resending after a partial acknowledgement, and the CRC-16/XMODEM check.
  - `sdo_ops` — operations made of several object accesses (configuring and reading PDOs,
    reading the identity, single typed reads and writes), each asking for one access at a time.
  - `nmt_master`, `blocking`, `nmt_client` — heartbeat tables and NMT commands.
  - `bus_manager` — the nodes known on a bus and the scan of one node ID.
  - `lss_master`, `lss_client` — the LSS fast scan and the configuration commands.
  - `command` — the grammar of the shell's commands.
  - `device_config`, `node_configuration` — device and node configuration models and checks.
- `app/` is the shell: socketcan I/O, the loops that perform what the library asks for, TOML
  loading, and terminal handling.
- `tests/` runs the library on concrete values.

The derive macros that generate object dictionaries for node firmware are code generation over
Rust syntax trees; they are not part of this library.
