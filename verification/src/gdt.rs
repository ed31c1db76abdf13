use vstd::prelude::*;
use x86_64::structures::gdt::{Descriptor, GlobalDescriptorTable};
use x86_64::structures::tss::TaskStateSegment;

verus! {

/// Index in the interrupt stack table of the stack used for double faults.
pub const DOUBLE_FAULT_IST_INDEX: u16 = 0;

/// Size of each kernel stack that the task state segment points to.
pub const KERNEL_STACK_SIZE: u64 = 20480;

/// Size of the stack of the first user-mode program.
pub const USER_STACK_SIZE: u64 = 4096;

/// The interrupt flag of RFLAGS.
pub const RFLAGS_INTERRUPT_FLAG: u64 = 0x200;

/// A processor privilege level (ring).
#[derive(Clone, Copy, Debug, PartialEq, Eq, Structural)]
pub enum PrivilegeLevel {
    Ring0,
    Ring1,
    Ring2,
    Ring3,
}

/// The number of a privilege level, 0 to 3.
pub open spec fn ring_number(rpl: PrivilegeLevel) -> u16 {
    match rpl {
        PrivilegeLevel::Ring0 => 0,
        PrivilegeLevel::Ring1 => 1,
        PrivilegeLevel::Ring2 => 2,
        PrivilegeLevel::Ring3 => 3,
    }
}

/// A segment selector for descriptor `index` requested at level `rpl`:
/// the index in bits 3..16 and the level in bits 0..2.
pub open spec fn selector_bits(index: u16, rpl: PrivilegeLevel) -> u16 {
    ((index << 3u16) | ring_number(rpl)) as u16
}

/// A segment selector for descriptor `index` requested at privilege level
/// `rpl`, as x86_64's `SegmentSelector::new` builds it.
pub fn segment_selector(index: u16, rpl: PrivilegeLevel) -> (s: u16)
    ensures
        s == selector_bits(index, rpl),
{
    let level: u16 = match rpl {
        PrivilegeLevel::Ring0 => 0,
        PrivilegeLevel::Ring1 => 1,
        PrivilegeLevel::Ring2 => 2,
        PrivilegeLevel::Ring3 => 3,
    };
    (index << 3u16) | level
}

/// The descriptor index of a selector (x86_64's `SegmentSelector::index`).
pub fn selector_index(selector: u16) -> (i: u16)
    ensures
        i == selector >> 3u16,
{
    selector >> 3u16
}

/// The requested privilege level bits of a selector.
pub fn selector_rpl(selector: u16) -> (r: u16)
    ensures
        r == selector & 3u16,
{
    selector & 3u16
}

/// A selector built from an index below 8192 and a level gives back that
/// index and that level.
pub proof fn lemma_selector_round_trip(index: u16, rpl: PrivilegeLevel)
    requires
        index < 8192,
    ensures
        selector_bits(index, rpl) >> 3u16 == index,
        selector_bits(index, rpl) & 3u16 == ring_number(rpl),
        selector_bits(index, rpl) as int == index * 8 + ring_number(rpl),
{
    let r = ring_number(rpl);
    assert(r < 4);
    assert(((index << 3u16) | r) >> 3u16 == index && ((index << 3u16) | r) & 3u16 == r && ((index
        << 3u16) | r) == index * 8 + r)
        by (bit_vector)
        requires
            index < 8192,
            r < 4,
    ;
}

#[verifier::external_type_specification]
#[verifier::external_body]
pub struct ExGlobalDescriptorTable<const MAX: usize>(GlobalDescriptorTable<MAX>);

#[verifier::external_type_specification]
#[verifier::external_body]
pub struct ExTaskStateSegment(TaskStateSegment);

/// A segment descriptor as the descriptor table stores it: one 8-byte
/// entry for a code or data segment, two for a system segment (a TSS).
#[derive(Clone, Copy, Debug, PartialEq, Eq, Structural)]
pub enum SegmentDescriptor {
    UserSegment(u64),
    SystemSegment(u64, u64),
}

/// The descriptor-privilege-level bits (45 and 46) of a descriptor's first word.
pub const DPL_BITS: u64 = 0x6000_0000_0000;

/// The access byte of a descriptor's first word: bits 40 to 47.
pub const ACCESS_BYTE_BITS: u64 = 0x0000_FF00_0000_0000;
/// Access byte of a present, available 64-bit TSS at level 0 (type 0b1001).
pub const TSS_ACCESS_BYTE: u64 = 0x0000_8900_0000_0000;

/// A 64-bit kernel code segment.
pub const KERNEL_CODE64: u64 = 0x00af_9b00_0000_ffff;
/// A kernel data segment.
pub const KERNEL_DATA: u64 = 0x00cf_9300_0000_ffff;
/// A user data segment (level 3).
pub const USER_DATA: u64 = 0x00cf_f300_0000_ffff;
/// A 64-bit user code segment (level 3).
pub const USER_CODE64: u64 = 0x00af_fb00_0000_ffff;

/// The table entries a descriptor takes, in order.
pub open spec fn descriptor_words(d: SegmentDescriptor) -> Seq<u64> {
    match d {
        SegmentDescriptor::UserSegment(v) => seq![v],
        SegmentDescriptor::SystemSegment(low, high) => seq![low, high],
    }
}

/// The privilege level a descriptor grants, from bits 45 and 46 of its
/// first word (x86_64's `Descriptor::dpl`).
pub open spec fn descriptor_dpl(d: SegmentDescriptor) -> PrivilegeLevel {
    let low = match d {
        SegmentDescriptor::UserSegment(v) => v,
        SegmentDescriptor::SystemSegment(v, _) => v,
    };
    let level = (low & DPL_BITS) >> 45u64;
    if level == 0 {
        PrivilegeLevel::Ring0
    } else if level == 1 {
        PrivilegeLevel::Ring1
    } else if level == 2 {
        PrivilegeLevel::Ring2
    } else {
        PrivilegeLevel::Ring3
    }
}

/// The entries of a descriptor table, the null entry first.
pub uninterp spec fn descriptor_table_entries(t: GlobalDescriptorTable) -> Seq<u64>;

/// x86_64's `GlobalDescriptorTable::new`: a table of at most 8 entries that
/// holds the null entry only.
#[verifier::external_body]
fn descriptor_table_new() -> (t: GlobalDescriptorTable)
    ensures
        descriptor_table_entries(t) == seq![0u64],
{
    GlobalDescriptorTable::new()
}

/// x86_64's `GlobalDescriptorTable::append`: adds the descriptor's entries
/// at the end of the table and returns the selector of its first entry, at
/// the level the descriptor grants. It panics when the 8 entries do not
/// leave room, which `requires` leaves out.
#[verifier::external_body]
fn descriptor_table_append(t: &mut GlobalDescriptorTable, d: SegmentDescriptor) -> (s: u16)
    requires
        descriptor_table_entries(*old(t)).len() + descriptor_words(d).len() <= 8,
    ensures
        descriptor_table_entries(*final(t)) == descriptor_table_entries(*old(t)) + descriptor_words(d),
        s == selector_bits(descriptor_table_entries(*old(t)).len() as u16, descriptor_dpl(d)),
{
    let entry = match d {
        SegmentDescriptor::UserSegment(v) => Descriptor::UserSegment(v),
        SegmentDescriptor::SystemSegment(low, high) => Descriptor::SystemSegment(low, high),
    };
    t.append(entry).0
}

/// x86_64's `Descriptor::kernel_code_segment`.
#[verifier::external_body]
fn kernel_code_descriptor() -> (d: SegmentDescriptor)
    ensures
        d == SegmentDescriptor::UserSegment(KERNEL_CODE64),
{
    match Descriptor::kernel_code_segment() {
        Descriptor::UserSegment(v) => SegmentDescriptor::UserSegment(v),
        Descriptor::SystemSegment(low, high) => SegmentDescriptor::SystemSegment(low, high),
    }
}

/// x86_64's `Descriptor::kernel_data_segment`.
#[verifier::external_body]
fn kernel_data_descriptor() -> (d: SegmentDescriptor)
    ensures
        d == SegmentDescriptor::UserSegment(KERNEL_DATA),
{
    match Descriptor::kernel_data_segment() {
        Descriptor::UserSegment(v) => SegmentDescriptor::UserSegment(v),
        Descriptor::SystemSegment(low, high) => SegmentDescriptor::SystemSegment(low, high),
    }
}

/// x86_64's `Descriptor::user_data_segment`.
#[verifier::external_body]
fn user_data_descriptor() -> (d: SegmentDescriptor)
    ensures
        d == SegmentDescriptor::UserSegment(USER_DATA),
{
    match Descriptor::user_data_segment() {
        Descriptor::UserSegment(v) => SegmentDescriptor::UserSegment(v),
        Descriptor::SystemSegment(low, high) => SegmentDescriptor::SystemSegment(low, high),
    }
}

/// x86_64's `Descriptor::user_code_segment`.
#[verifier::external_body]
fn user_code_descriptor() -> (d: SegmentDescriptor)
    ensures
        d == SegmentDescriptor::UserSegment(USER_CODE64),
{
    match Descriptor::user_code_segment() {
        Descriptor::UserSegment(v) => SegmentDescriptor::UserSegment(v),
        Descriptor::SystemSegment(low, high) => SegmentDescriptor::SystemSegment(low, high),
    }
}

/// x86_64's `Descriptor::tss_segment`: a two-word system descriptor whose
/// access byte (bits 40 to 47 of the first word) marks a present, available
/// 64-bit TSS at level 0, and whose second word holds nothing above bit 31.
/// The other bits hold the address and limit of `tss`, which depend on
/// where it lies in memory and are not stated.
#[verifier::external_body]
fn tss_descriptor(tss: &'static TaskStateSegment) -> (d: SegmentDescriptor)
    ensures
        d is SystemSegment,
        d->SystemSegment_0 & ACCESS_BYTE_BITS == TSS_ACCESS_BYTE,
        d->SystemSegment_1 & 0xFFFF_FFFF_0000_0000u64 == 0,
{
    match Descriptor::tss_segment(tss) {
        Descriptor::UserSegment(v) => SegmentDescriptor::UserSegment(v),
        Descriptor::SystemSegment(low, high) => SegmentDescriptor::SystemSegment(low, high),
    }
}

/// The selectors of the kernel's global descriptor table.
#[derive(Clone, Copy, Debug)]
pub struct Selectors {
    pub kernel_code: u16,
    pub kernel_data: u16,
    pub user_data: u16,
    pub user_code: u16,
    pub tss_selector: u16,
}

/// The selectors of the kernel's descriptor table: kernel code and data at
/// entries 1 and 2 (level 0), user data and code at entries 3 and 4 (level
/// 3), and the task state segment at entry 5 (level 0).
pub open spec fn kernel_table_selectors() -> Selectors {
    Selectors {
        kernel_code: selector_bits(1, PrivilegeLevel::Ring0),
        kernel_data: selector_bits(2, PrivilegeLevel::Ring0),
        user_data: selector_bits(3, PrivilegeLevel::Ring3),
        user_code: selector_bits(4, PrivilegeLevel::Ring3),
        tss_selector: selector_bits(5, PrivilegeLevel::Ring0),
    }
}

/// Builds the kernel's descriptor table: the null entry, kernel code,
/// kernel data, user data, user code and the task state segment `tss`, and
/// the selectors of its entries.
pub fn build_descriptor_table(tss: &'static TaskStateSegment) -> (r: (GlobalDescriptorTable, Selectors))
    ensures
        r.1 == kernel_table_selectors(),
        descriptor_table_entries(r.0).len() == 7,
        descriptor_table_entries(r.0).take(5) == seq![0u64, KERNEL_CODE64, KERNEL_DATA, USER_DATA, USER_CODE64],
        descriptor_table_entries(r.0)[5] & ACCESS_BYTE_BITS == TSS_ACCESS_BYTE,
        descriptor_table_entries(r.0)[6] & 0xFFFF_FFFF_0000_0000u64 == 0,
{
    proof {
        assert((0x00af_9b00_0000_ffffu64 & 0x6000_0000_0000u64) >> 45u64 == 0u64) by (bit_vector);
        assert((0x00cf_9300_0000_ffffu64 & 0x6000_0000_0000u64) >> 45u64 == 0u64) by (bit_vector);
        assert((0x00cf_f300_0000_ffffu64 & 0x6000_0000_0000u64) >> 45u64 == 3u64) by (bit_vector);
        assert((0x00af_fb00_0000_ffffu64 & 0x6000_0000_0000u64) >> 45u64 == 3u64) by (bit_vector);
        assert(0u64 >> 45u64 == 0u64) by (bit_vector);
    }
    let mut gdt = descriptor_table_new();
    let kernel_code = descriptor_table_append(&mut gdt, kernel_code_descriptor());
    let kernel_data = descriptor_table_append(&mut gdt, kernel_data_descriptor());
    let user_data = descriptor_table_append(&mut gdt, user_data_descriptor());
    let user_code = descriptor_table_append(&mut gdt, user_code_descriptor());
    let tss_entry = tss_descriptor(tss);
    proof {
        let low = tss_entry->SystemSegment_0;
        assert(low & 0x0000_FF00_0000_0000u64 == 0x0000_8900_0000_0000u64 ==> (low
            & 0x6000_0000_0000u64) >> 45u64 == 0u64) by (bit_vector);
    }
    let tss_selector = descriptor_table_append(&mut gdt, tss_entry);
    assert(descriptor_table_entries(gdt).take(5) =~= seq![0u64, KERNEL_CODE64, KERNEL_DATA, USER_DATA, USER_CODE64]);
    (gdt, Selectors { kernel_code, kernel_data, user_data, user_code, tss_selector })
}

/// The five values that `iretq` pops to enter user mode, in the order they
/// are pushed: stack segment, stack pointer, flags, code segment, entry.
#[derive(Clone, Copy, Debug, PartialEq, Eq, Structural)]
pub struct IretFrame {
    pub ss: u64,
    pub rsp: u64,
    pub rflags: u64,
    pub cs: u64,
    pub rip: u64,
}

/// The frame that enters ring 3 at `entry`, on the user stack that starts
/// at `stack_start`: the user data and code descriptors of `selectors`
/// requested at level 3, the stack's end, and `rflags` with interrupts on.
pub open spec fn ring3_frame(selectors: Selectors, stack_start: u64, entry: u64, rflags: u64) -> IretFrame {
    IretFrame {
        ss: selector_bits(selectors.user_data >> 3u16, PrivilegeLevel::Ring3) as u64,
        rsp: (stack_start + USER_STACK_SIZE) as u64,
        rflags: rflags | RFLAGS_INTERRUPT_FLAG,
        cs: selector_bits(selectors.user_code >> 3u16, PrivilegeLevel::Ring3) as u64,
        rip: entry,
    }
}

/// The `iretq` frame that enters ring 3 at `entry`, on the stack that
/// starts at `stack_start` and is `USER_STACK_SIZE` bytes long, with the
/// user code and data descriptors of `selectors` requested at level 3 and
/// interrupts enabled in the current `rflags`.
pub fn user_mode_frame(selectors: &Selectors, stack_start: u64, entry: u64, rflags: u64) -> (f: IretFrame)
    requires
        stack_start + USER_STACK_SIZE <= u64::MAX,
    ensures
        f == ring3_frame(*selectors, stack_start, entry, rflags),
        f.rip == entry,
        f.rsp == stack_start + USER_STACK_SIZE,
{
    let code = segment_selector(selector_index(selectors.user_code), PrivilegeLevel::Ring3);
    let data = segment_selector(selector_index(selectors.user_data), PrivilegeLevel::Ring3);
    IretFrame {
        ss: data as u64,
        rsp: stack_start + USER_STACK_SIZE,
        rflags: rflags | RFLAGS_INTERRUPT_FLAG,
        cs: code as u64,
        rip: entry,
    }
}

/// The frame that enters ring 3 requests level 3 in both segment
/// selectors, keeps their descriptor indices, has interrupts enabled and the
/// stack pointer at the end of the user stack.
pub proof fn lemma_user_frame_is_ring3(selectors: Selectors, stack_start: u64, entry: u64, rflags: u64)
    requires
        stack_start + USER_STACK_SIZE <= u64::MAX,
    ensures
        ring3_frame(selectors, stack_start, entry, rflags).ss & 3 == 3,
        ring3_frame(selectors, stack_start, entry, rflags).cs & 3 == 3,
        ring3_frame(selectors, stack_start, entry, rflags).ss >> 3u64 == (selectors.user_data >> 3u16) as u64,
        ring3_frame(selectors, stack_start, entry, rflags).cs >> 3u64 == (selectors.user_code >> 3u16) as u64,
        ring3_frame(selectors, stack_start, entry, rflags).rflags & RFLAGS_INTERRUPT_FLAG == RFLAGS_INTERRUPT_FLAG,
        ring3_frame(selectors, stack_start, entry, rflags).rsp == stack_start + USER_STACK_SIZE,
        ring3_frame(selectors, stack_start, entry, rflags).rip == entry,
        ring3_frame(selectors, stack_start, entry, rflags).rflags == rflags | 0x200,
        ring3_frame(selectors, stack_start, entry, rflags).rsp == stack_start + 4096,
{
    let d = selectors.user_data;
    let c = selectors.user_code;
    assert((((d >> 3u16) << 3u16) | 3u16) as u64 & 3u64 == 3u64 && ((((d >> 3u16) << 3u16)
        | 3u16) as u64) >> 3u64 == (d >> 3u16) as u64) by (bit_vector);
    assert((((c >> 3u16) << 3u16) | 3u16) as u64 & 3u64 == 3u64 && ((((c >> 3u16) << 3u16)
        | 3u16) as u64) >> 3u64 == (c >> 3u16) as u64) by (bit_vector);
    assert((rflags | 0x200u64) & 0x200u64 == 0x200u64) by (bit_vector);
}

/// With the kernel's descriptor table, the frame that enters ring 3 uses
/// exactly the table's user code and user data selectors, the ones that
/// `sysret` returns with.
pub proof fn lemma_kernel_table_ring3_frame(stack_start: u64, entry: u64, rflags: u64)
    ensures
        ring3_frame(kernel_table_selectors(), stack_start, entry, rflags).cs
            == kernel_table_selectors().user_code as u64,
        ring3_frame(kernel_table_selectors(), stack_start, entry, rflags).ss
            == kernel_table_selectors().user_data as u64,
{
    assert(((4u16 << 3u16) | 3u16) == 0x23u16) by (bit_vector);
    assert(((3u16 << 3u16) | 3u16) == 0x1Bu16) by (bit_vector);
    assert(0x23u16 >> 3u16 == 4u16) by (bit_vector);
    assert(0x1Bu16 >> 3u16 == 3u16) by (bit_vector);
}

} // verus!
