use vstd::prelude::*;
use crate::gdt::kernel_table_selectors;

verus! {

/// Model-specific register: extended feature enable.
pub const IA32_EFER: u32 = 0xC000_0080;
/// Model-specific register: segment selectors for `syscall` and `sysret`.
pub const IA32_STAR: u32 = 0xC000_0081;
/// Model-specific register: the 64-bit `syscall` entry point.
pub const IA32_LSTAR: u32 = 0xC000_0082;
/// Model-specific register: the RFLAGS bits cleared on `syscall`.
pub const IA32_FMASK: u32 = 0xC000_0084;

/// The system-call-enable bit of EFER.
pub const EFER_SCE: u64 = 1;
/// RFLAGS bits cleared on entry: the interrupt flag.
pub const SYSCALL_FLAG_MASK: u64 = 0x200;
/// Base selector for `syscall`: the kernel code segment.
pub const STAR_KERNEL_CS: u64 = 0x08;
/// Base selector for `sysret`: user code is at this plus 16, user data
/// at this plus 8, both with level 3.
pub const STAR_USER_CS_BASE: u64 = 0x13;

/// The number of the system call that prints a dot.
pub const SYSCALL_PRINT_DOT: u64 = 1;

/// The four model-specific register writes that enable `syscall`, in the
/// order they are made.
#[derive(Clone, Copy, Debug, PartialEq, Eq, Structural)]
pub struct SyscallSetup {
    /// New EFER value.
    pub efer: u64,
    /// New LSTAR value: the entry point.
    pub lstar: u64,
    /// New FMASK value.
    pub fmask: u64,
    /// New STAR value.
    pub star: u64,
}

/// The STAR value that makes `syscall` load the kernel segments and
/// `sysret` the user segments.
pub open spec fn star_value() -> u64 {
    ((STAR_USER_CS_BASE << 48u64) | (STAR_KERNEL_CS << 32u64)) as u64
}

/// The register values that enable system calls entering at `handler`,
/// given the current EFER: EFER gains the enable bit, LSTAR points at the
/// handler, FMASK masks interrupts and STAR holds the segment bases.
pub fn syscall_setup(current_efer: u64, handler: u64) -> (s: SyscallSetup)
    ensures
        s.efer == current_efer | EFER_SCE,
        s.lstar == handler,
        s.fmask == SYSCALL_FLAG_MASK,
        s.star == star_value(),
        s.efer == current_efer | 1,
        s.fmask == 0x200,
        s.star == 0x0013_0008_0000_0000u64,
{
    assert(((0x13u64 << 48u64) | (0x08u64 << 32u64)) == 0x0013_0008_0000_0000u64) by (bit_vector);
    let kernel_cs: u64 = STAR_KERNEL_CS;
    let user_cs_base: u64 = STAR_USER_CS_BASE;
    SyscallSetup {
        efer: current_efer | EFER_SCE,
        lstar: handler,
        fmask: SYSCALL_FLAG_MASK,
        star: (user_cs_base << 48u64) | (kernel_cs << 32u64),
    }
}

/// Enabling system calls sets the enable bit of EFER and keeps every other
/// bit of it.
pub proof fn lemma_efer_keeps_other_bits(current_efer: u64)
    ensures
        (current_efer | EFER_SCE) & EFER_SCE == EFER_SCE,
        (current_efer | EFER_SCE) & !EFER_SCE == current_efer & !EFER_SCE,
{
    assert((current_efer | 1u64) & 1u64 == 1u64 && (current_efer | 1u64) & !1u64 == current_efer
        & !1u64) by (bit_vector);
}

/// The segments that STAR gives `syscall` and `sysret` are those of the
/// descriptor table that `build_descriptor_table` builds: `syscall` enters
/// with its kernel code and kernel data selectors, `sysret` returns with its
/// user code and user data selectors.
pub proof fn lemma_star_matches_descriptor_table()
    ensures
        (star_value() >> 32u64) & 0xFFFF == kernel_table_selectors().kernel_code,
        ((star_value() >> 32u64) & 0xFFFF) + 8 == kernel_table_selectors().kernel_data,
        ((star_value() >> 48u64) & 0xFFFF) + 16 == kernel_table_selectors().user_code,
        ((star_value() >> 48u64) & 0xFFFF) + 8 == kernel_table_selectors().user_data,
{
    assert(((((0x13u64 << 48u64) | (0x08u64 << 32u64)) as u64) >> 32u64) & 0xFFFFu64 == 0x08u64)
        by (bit_vector);
    assert(((((0x13u64 << 48u64) | (0x08u64 << 32u64)) as u64) >> 48u64) & 0xFFFFu64 == 0x13u64)
        by (bit_vector);
    assert(((1u16 << 3u16) | 0u16) == 0x08u16) by (bit_vector);
    assert(((2u16 << 3u16) | 0u16) == 0x10u16) by (bit_vector);
    assert(((4u16 << 3u16) | 3u16) == 0x23u16) by (bit_vector);
    assert(((3u16 << 3u16) | 3u16) == 0x1Bu16) by (bit_vector);
}

/// What the system call handler prints for call number `number`: a dot for
/// call 1, nothing for any other.
pub fn syscall_output(number: u64) -> (r: Option<char>)
    ensures
        r == (if number == 1 { Some('.') } else { None::<char> }),
{
    if number == SYSCALL_PRINT_DOT {
        Some('.')
    } else {
        None
    }
}

} // verus!
