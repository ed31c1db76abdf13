# daxo_os

The logic of a small x86_64 kernel, verified with Verus.

- `src/fs.rs`: directory entries with a 24-byte NUL-terminated name, and the
  in-memory file system.
- `src/ata.rs`: the ATA PIO one-sector read, as a state machine that tells
  the driver which port to read or write next.
- `src/shell.rs`: the interactive menu: PS/2 scan codes decoded with
  `pc-keyboard`, keys mapped to screens.
- `src/gdt.rs`: the kernel descriptor table (built with `x86_64`), segment
  selectors and the `iretq` frame that enters ring 3.
- `src/syscall.rs`: the MSR values that enable `syscall`, and the handler's answer.
- `src/boot.rs`: what the boot self-test shows of the sector it read.
- `app/`: the hardware side (port and MSR access, descriptor tables, inline
  assembly, console output), which carries out what the library decides.
