//! Verified core logic of the Daxo OS kernel: the on-disk directory entry
//! format, the ATA PIO sector-read protocol, the interactive menu, the
//! ring-3 transition frame and the syscall MSR setup.
pub mod ata;
pub mod boot;
pub mod fs;
pub mod gdt;
pub mod shell;
pub mod syscall;
