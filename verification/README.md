# can_flasher

Host-side tooling for an STM32 CAN bootloader, written in Verus: every
function under `src/` carries a contract that Verus proves, except the
trusted items that call into std and the outside crates. These are nine
`external_body` wrappers (`path_extension`, `elf_segments`,
`read_hex_records`, `crc32_checksum`, `utf8_text`, `lossy_text`,
`debug_quoted`, `path_parent`, `to_lowercase`) and one `assume_specification`
(`String::push`); their contracts are believed, not proved.

- `protocol`, `bytes` — CAN frames and the bootloader's binary records.
- `firmware` — image model, ELF / Intel HEX / raw loading, firmware-info record.
- `flash` — the sector-aware flash planner and its laws (what a diff or a
  dry run may touch).
- `pit_diag` — decoders of the AMS, ECU and uDV telemetry streams.
- `cli` — argument parsers, the subcommands' decisions and every line they
  print (pit-diag observer, flash progress and profile, candump replay,
  logs, config, adapters …), plus the candump round-trip law and the
  one-object-per-line law of the pit-diag NDJSON output.
- `studio` — the desktop front-end's records, events and decisions (pit-diag
  events, bus monitor, flashing, logs, DBC bit extraction).
- `text`, `parse` — decimal/hex rendering and the integer syntax of
  `from_str_radix`, specified over `Seq<char>`.

`app/main.rs` is the command-line front end: argument parsing, files, the
network and printing. `tests/` exercises the library on concrete values.
