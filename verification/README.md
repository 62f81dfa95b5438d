# selfdbg

Verified decision logic of a Wi-Fi CMSIS-DAP probe for the RP2040 that debugs
and reflashes its own second core.

- `src/` (Verus): the flash mailbox protocol (`flash::ipc`), the flash
  algorithm's entry points and table placement (`flash::thunk`,
  `flash_standalone`), the monitor that turns requests into flash work
  (`flash::monitor`), the mailbox signature search, SWJ bit sequencing
  (`swj`), the boot decision (`boot`) and the TCP service's state machine
  (`session`).
- `app/` (plain Rust): the hardware side — ROM flash calls, the debug-force
  register, the boot jump, the TCP socket — calling into the library.
- `tests/`: tests of the library on concrete values.
