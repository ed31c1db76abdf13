use x86_64::structures::tss::TaskStateSegment;
use daxo_os::boot::sector_preview;
use daxo_os::gdt::{build_descriptor_table, segment_selector, selector_index, selector_rpl, user_mode_frame, PrivilegeLevel, Selectors};
use daxo_os::shell::{menu_choice, CtrlHandling, KeyInput, KeyModifiers, MenuChoice, Shell};
use daxo_os::syscall::{syscall_output, syscall_setup};

#[test]
fn menu_keys() {
    assert_eq!(menu_choice(KeyInput::Unicode('1')), MenuChoice::SystemInfo);
    assert_eq!(menu_choice(KeyInput::Unicode('2')), MenuChoice::FileSystem);
    assert_eq!(menu_choice(KeyInput::Unicode('3')), MenuChoice::About);
    assert_eq!(menu_choice(KeyInput::Unicode('m')), MenuChoice::MainMenu);
    assert_eq!(menu_choice(KeyInput::Unicode('M')), MenuChoice::MainMenu);
    assert_eq!(menu_choice(KeyInput::Unicode('4')), MenuChoice::Ignored);
    assert_eq!(menu_choice(KeyInput::RawKey), MenuChoice::Ignored);
}

#[test]
fn shell_decodes_scancodes() {
    let mut shell = Shell::new();
    // Scan code set 1: make code of '1', then its break code.
    let r = shell.handle_scancode(0x02);
    assert_eq!(r.key, Some(KeyInput::Unicode('1')));
    assert_eq!(r.choice, MenuChoice::SystemInfo);
    let r = shell.handle_scancode(0x82);
    assert_eq!(r.choice, MenuChoice::Ignored);
    // 'm'
    let r = shell.handle_scancode(0x32);
    assert_eq!(r.key, Some(KeyInput::Unicode('m')));
    assert_eq!(r.choice, MenuChoice::MainMenu);
    // Left shift down gives a raw key; 'm' is then 'M'.
    let r = shell.handle_scancode(0x2A);
    assert_eq!(r.key, Some(KeyInput::RawKey));
    assert_eq!(r.choice, MenuChoice::Ignored);
    let r = shell.handle_scancode(0x32);
    assert_eq!(r.key, Some(KeyInput::Unicode('M')));
    assert_eq!(r.choice, MenuChoice::MainMenu);
}

#[test]
fn selectors() {
    assert_eq!(segment_selector(1, PrivilegeLevel::Ring0), 0x08);
    assert_eq!(segment_selector(3, PrivilegeLevel::Ring3), 0x1B);
    assert_eq!(segment_selector(4, PrivilegeLevel::Ring3), 0x23);
    assert_eq!(selector_index(0x23), 4);
    assert_eq!(selector_rpl(0x23), 3);
}

#[test]
fn ring3_frame() {
    let s = Selectors { kernel_code: 0x08, kernel_data: 0x10, user_data: 0x18, user_code: 0x20, tss_selector: 0x28 };
    let f = user_mode_frame(&s, 0x5000, 0x1000_0000_0000, 0x2);
    assert_eq!(f.ss, 0x1B);
    assert_eq!(f.rsp, 0x6000);
    assert_eq!(f.rflags, 0x202);
    assert_eq!(f.cs, 0x23);
    assert_eq!(f.rip, 0x1000_0000_0000);
}

#[test]
fn syscall_registers() {
    let s = syscall_setup(0xD00, 0xFFFF_8000_0000_1234);
    assert_eq!(s.efer, 0xD01);
    assert_eq!(s.lstar, 0xFFFF_8000_0000_1234);
    assert_eq!(s.fmask, 0x200);
    assert_eq!(s.star, 0x0013_0008_0000_0000);
    assert_eq!(syscall_setup(0xD01, 0).efer, 0xD01);
}

#[test]
fn syscall_dot() {
    assert_eq!(syscall_output(1), Some('.'));
    assert_eq!(syscall_output(0), None);
    assert_eq!(syscall_output(2), None);
}

#[test]
fn preview_of_text_sector() {
    let mut sector = [0u8; 512];
    sector[..5].copy_from_slice(b"Hi!\n~");
    sector[100] = b'X';
    assert_eq!(sector_preview(&sector), Some(b"Hi!~".to_vec()));
}

#[test]
fn preview_of_binary_sector() {
    let mut sector = [0u8; 512];
    sector[0] = 0xEB;
    sector[1] = 0x7F;
    sector[90] = b'A';
    assert_eq!(sector_preview(&sector), None);
}

#[test]
fn preview_limits_to_90_bytes() {
    let sector = [b'a'; 512];
    assert_eq!(sector_preview(&sector).unwrap().len(), 90);
}

#[test]
fn new_shell_keyboard_state() {
    let shell = Shell::new();
    assert_eq!(shell.ctrl_handling(), CtrlHandling::Ignore);
    assert_eq!(
        shell.modifiers(),
        KeyModifiers {
            lshift: false,
            rshift: false,
            lctrl: false,
            rctrl: false,
            numlock: true,
            capslock: false,
            lalt: false,
            ralt: false,
            rctrl2: false,
        }
    );
}

#[test]
fn shift_is_tracked_and_ctrl_mapping_kept() {
    let mut shell = Shell::new();
    shell.handle_scancode(0x2A);
    assert!(shell.modifiers().lshift);
    shell.handle_scancode(0xAA);
    assert!(!shell.modifiers().lshift);
    assert_eq!(shell.ctrl_handling(), CtrlHandling::Ignore);
}

#[test]
fn kernel_descriptor_table() {
    let tss: &'static TaskStateSegment = Box::leak(Box::new(TaskStateSegment::new()));
    let (gdt, sel) = build_descriptor_table(tss);
    assert_eq!(sel.kernel_code, 0x08);
    assert_eq!(sel.kernel_data, 0x10);
    assert_eq!(sel.user_data, 0x1B);
    assert_eq!(sel.user_code, 0x23);
    assert_eq!(sel.tss_selector, 0x28);
    let entries: Vec<u64> = gdt.entries().iter().map(|e| e.raw()).collect();
    assert_eq!(entries.len(), 7);
    assert_eq!(&entries[..5], &[0, 0x00af_9b00_0000_ffff, 0x00cf_9300_0000_ffff, 0x00cf_f300_0000_ffff, 0x00af_fb00_0000_ffff]);
    assert_eq!(entries[5] & 0x0000_FF00_0000_0000, 0x0000_8900_0000_0000);
    assert_eq!(entries[6] & 0xFFFF_FFFF_0000_0000, 0);
    // STAR's selectors are the table's.
    let star = syscall_setup(0, 0).star;
    assert_eq!((star >> 32) & 0xFFFF, sel.kernel_code as u64);
    assert_eq!(((star >> 32) & 0xFFFF) + 8, sel.kernel_data as u64);
    assert_eq!((star >> 48) + 16, sel.user_code as u64);
    assert_eq!((star >> 48) + 8, sel.user_data as u64);
}

#[test]
fn shift_one_is_not_a_menu_key() {
    let mut shell = Shell::new();
    shell.handle_scancode(0x2A);
    let r = shell.handle_scancode(0x02);
    assert_eq!(r.key, Some(KeyInput::Unicode('!')));
    assert_eq!(r.choice, MenuChoice::Ignored);
}

#[test]
fn extended_prefix_completes_no_key() {
    let mut shell = Shell::new();
    let r = shell.handle_scancode(0xE0);
    assert_eq!(r.key, None);
    assert_eq!(r.choice, MenuChoice::Ignored);
    // Right Ctrl (E0 1D) is a raw key, not a menu key.
    let r = shell.handle_scancode(0x1D);
    assert_eq!(r.key, Some(KeyInput::RawKey));
    assert!(shell.modifiers().rctrl);
    // After the extended code, '1' is a plain key again.
    let r = shell.handle_scancode(0x02);
    assert_eq!(r.choice, MenuChoice::SystemInfo);
}
