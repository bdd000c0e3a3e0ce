# v5gdb

A GDB-compatible debug server for the VEX V5 brain, with its decision logic verified by Verus.

## Layout

- `src/` is the verified library. Every function in it carries a `requires`/`ensures` contract that
  Verus checks, and the laws that hold across several functions are public proof functions.
  - `cpu`: instruction decoding and encoding (ARM and Thumb), the program status register and the
    vector base address register.
  - `gdb_target`: the debug target as GDB sees it: register and breakpoint kinds, the software and
    hardware breakpoint tables, the `monitor` command parser with the state changes commands make,
    the answers to the commands and the controller report.
  - `debugger`: the session's decisions on a breakpoint stop, the internal exit-request breakpoint
    and the monitor's exit handshake with the GDB client.
  - `sdk`: competition status overriding, the serial jumptable's return conventions and the layout
    of the trampolines that redirect SDK functions.
  - `transport`: multiplexing of user output and GDB traffic on one serial channel as COBS-framed
    packets, and the host side that splits the received stream into frames and routes them.
  - `packaging`: the cargo invocation for the C library, which library cargo built, and the PROS
    template's id and manifest, over a JSON value model (app/ parses `Cargo.toml` into it and writes
    the manifest out with `serde_json`).
  - `motors`, `harness`, `text`: motor stopping, the on-device test status lines and the test
    runner's steps, and string comparison, trimming and splitting into words.
- `tests/` runs the library on concrete values.
- `app/` is the unverified shell: VEX SDK and jumptable calls, memory patching, the `gdbstub`
  architecture types and connections, the C interface, the host-side serial bridge and the build
  tooling. It hands the library plain values and acts on what it returns. It holds no `gdbstub`
  target implementation (register access, memory access, resuming and stepping): the debug console
  is a function the embedding program supplies (`V5Debugger::with_console`), and without one a
  breakpoint resumes at once.

Calls into outside crates that the library makes (`cobs`, `bytemuck`, `log`, `cargo_metadata` and
`core::str`) go
through small wrappers marked `#[verifier::external_body]`; their doc comments say what each
contract claims of the called function.
