# uefibootmgrrs

A tool to manage UEFI boot entries (`Boot####`, `BootOrder`, `BootNext`) and
the EFI System Partition, as a command-line program and an interactive
terminal UI. Its logic is a library verified with Verus.

## Layout

- `src/` — the verified library.
  - `text.rs` — string building, hexadecimal and decimal text, trimming and
    number parsing.
  - `error.rs` — the application errors and boot entry ID parsing.
  - `host.rs` — the platform and the outcomes of external commands.
  - `boot/` — the variable store (efivar), `EFI_LOAD_OPTION` decoding and
    encoding, the boot manager over the store, backups (base64, chrono),
    partitions and ESP type GUIDs (reading `lsblk` and `Get-Partition`
    JSON through serde_json), ESP discovery, bootloaders, privileges.
  - `tui/` — the state of the terminal UI, its actions, and what each key
    does.
  - `cli/` — what each command does and prints.
- `app/` — the program around the library: clap arguments, backups and
  `--json` output through serde, opening the firmware variable store,
  printing and tables, confirmation prompts, file and process I/O,
  and drawing the terminal UI with ratatui and crossterm.
- `tests/` — tests of the library against a file-backed variable store.

The library returns the lines a command prints and the commands to run;
`app/` performs them. Where the work alternates between decisions and I/O
(finding the mounted ESP, the terminal UI's backup and restore), the
library takes each answer and says what to do next.
