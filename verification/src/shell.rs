use vstd::prelude::*;
use pc_keyboard::{layouts, DecodedKey, HandleControl, KeyEvent, Keyboard, ScancodeSet1};

verus! {

/// The PS/2 keyboard decoder of pc_keyboard for scan code set 1 and the US
/// 104-key layout. Its state is opaque; the functions below read and change
/// it, and the names below say what they give back.
#[verifier::external_body]
pub struct KeyDecoder {
    keyboard: Keyboard<layouts::Us104Key, ScancodeSet1>,
}

#[verifier::external_type_specification]
#[verifier::external_body]
pub struct ExScancodeSet1(ScancodeSet1);

#[verifier::external_type_specification]
#[verifier::external_body]
pub struct ExUs104Key(layouts::Us104Key);

#[verifier::external_type_specification]
#[verifier::external_body]
pub struct ExKeyEvent(KeyEvent);

/// What the Ctrl key does to letters (pc_keyboard's `HandleControl`).
#[derive(Clone, Copy, Debug, PartialEq, Eq, Structural)]
pub enum CtrlHandling {
    /// Ctrl + letter gives the control characters U+0001 to U+001A.
    MapLettersToUnicode,
    /// Letters stay letters; Ctrl is passed through.
    Ignore,
}

/// A decoded key press: a character, or a key that has none.
#[derive(Clone, Copy, Debug, PartialEq, Eq, Structural)]
pub enum KeyInput {
    Unicode(char),
    RawKey,
}

/// What the interactive menu shows in answer to a key.
#[derive(Clone, Copy, Debug, PartialEq, Eq, Structural)]
pub enum MenuChoice {
    /// Key '1': system information and memory.
    SystemInfo,
    /// Key '2': the file system view of kernel.txt.
    FileSystem,
    /// Key '3': about the system.
    About,
    /// Key 'm' or 'M': the main menu again.
    MainMenu,
    /// Any other key: nothing.
    Ignored,
}

/// The menu's answer to a decoded key.
pub open spec fn menu_choice_for(key: KeyInput) -> MenuChoice {
    match key {
        KeyInput::Unicode(c) => if c == '1' {
            MenuChoice::SystemInfo
        } else if c == '2' {
            MenuChoice::FileSystem
        } else if c == '3' {
            MenuChoice::About
        } else if c == 'm' || c == 'M' {
            MenuChoice::MainMenu
        } else {
            MenuChoice::Ignored
        },
        KeyInput::RawKey => MenuChoice::Ignored,
    }
}

/// Which key picks which answer: the character '1' and only it picks the
/// system information, '2' the file system, '3' the about screen, 'm' and
/// 'M' the main menu; every other character and every raw key is ignored.
pub proof fn lemma_menu_keys(key: KeyInput)
    ensures
        menu_choice_for(key) == MenuChoice::SystemInfo <==> key == KeyInput::Unicode('1'),
        menu_choice_for(key) == MenuChoice::FileSystem <==> key == KeyInput::Unicode('2'),
        menu_choice_for(key) == MenuChoice::About <==> key == KeyInput::Unicode('3'),
        menu_choice_for(key) == MenuChoice::MainMenu <==> (key == KeyInput::Unicode('m') || key
            == KeyInput::Unicode('M')),
        menu_choice_for(key) == MenuChoice::Ignored <==> !(key == KeyInput::Unicode('1') || key
            == KeyInput::Unicode('2') || key == KeyInput::Unicode('3') || key == KeyInput::Unicode(
            'm',
        ) || key == KeyInput::Unicode('M')),
{
}

/// The menu's answer to a decoded key: '1', '2' and '3' pick a screen,
/// 'm' or 'M' shows the menu, anything else is ignored.
pub fn menu_choice(key: KeyInput) -> (c: MenuChoice)
    ensures
        c == menu_choice_for(key),
{
    match key {
        KeyInput::Unicode(c) => {
            if c == '1' {
                MenuChoice::SystemInfo
            } else if c == '2' {
                MenuChoice::FileSystem
            } else if c == '3' {
                MenuChoice::About
            } else if c == 'm' || c == 'M' {
                MenuChoice::MainMenu
            } else {
                MenuChoice::Ignored
            }
        },
        KeyInput::RawKey => MenuChoice::Ignored,
    }
}

/// The state of the modifier keys, as pc_keyboard's `Modifiers` holds it.
#[derive(Clone, Copy, Debug, PartialEq, Eq, Structural)]
pub struct KeyModifiers {
    pub lshift: bool,
    pub rshift: bool,
    pub lctrl: bool,
    pub rctrl: bool,
    pub numlock: bool,
    pub capslock: bool,
    pub lalt: bool,
    pub ralt: bool,
    pub rctrl2: bool,
}

/// The modifiers of a freshly made keyboard: Num Lock on, every other key up.
pub open spec fn initial_modifiers() -> KeyModifiers {
    KeyModifiers {
        lshift: false,
        rshift: false,
        lctrl: false,
        rctrl: false,
        numlock: true,
        capslock: false,
        lalt: false,
        ralt: false,
        rctrl2: false,
    }
}

/// What pc_keyboard's `Keyboard::get_ctrl_handling` returns for the decoder.
pub uninterp spec fn keyboard_ctrl_handling(kb: KeyDecoder) -> CtrlHandling;

/// What pc_keyboard's `Keyboard::get_modifiers` returns for the decoder.
pub uninterp spec fn keyboard_modifiers(kb: KeyDecoder) -> KeyModifiers;

/// The scan code bytes fed to the decoder (`Keyboard::add_byte`) since it
/// was made, oldest first.
pub uninterp spec fn keyboard_bytes_fed(kb: KeyDecoder) -> Seq<u8>;

/// What pc_keyboard's `Keyboard::add_byte` gives back for `byte` when the
/// decoder was fed the bytes `history` since it was made: the key event that
/// scan code set 1 completes, or none (a prefix byte, or a decoding error).
pub uninterp spec fn scancode_event_after(history: Seq<u8>, byte: u8) -> Option<KeyEvent>;

/// The modifiers that pc_keyboard's `Keyboard::process_keyevent` leaves
/// after the event `ev` under the modifiers `m`.
pub uninterp spec fn keyboard_modifiers_after(m: KeyModifiers, ev: KeyEvent) -> KeyModifiers;

/// What pc_keyboard's `Keyboard::process_keyevent` gives back for the event
/// `ev` under the modifiers `m` and the Ctrl mapping `c`, with the US 104-key
/// layout: a character, a raw key, or none (a release).
pub uninterp spec fn keyboard_key_for_event(m: KeyModifiers, c: CtrlHandling, ev: KeyEvent) -> Option<KeyInput>;

/// pc_keyboard's `Keyboard::get_ctrl_handling`: the decoder's Ctrl mapping.
#[verifier::external_body]
fn keyboard_get_ctrl_handling(kb: &KeyDecoder) -> (c: CtrlHandling)
    ensures
        c == keyboard_ctrl_handling(*kb),
{
    match kb.keyboard.get_ctrl_handling() {
        HandleControl::MapLettersToUnicode => CtrlHandling::MapLettersToUnicode,
        HandleControl::Ignore => CtrlHandling::Ignore,
    }
}

/// pc_keyboard's `Keyboard::get_modifiers`: the decoder's modifier state.
#[verifier::external_body]
fn keyboard_get_modifiers(kb: &KeyDecoder) -> (m: KeyModifiers)
    ensures
        m == keyboard_modifiers(*kb),
{
    let m = kb.keyboard.get_modifiers();
    KeyModifiers {
        lshift: m.lshift,
        rshift: m.rshift,
        lctrl: m.lctrl,
        rctrl: m.rctrl,
        numlock: m.numlock,
        capslock: m.capslock,
        lalt: m.lalt,
        ralt: m.ralt,
        rctrl2: m.rctrl2,
    }
}

/// pc_keyboard's `ScancodeSet1::new`: a decoder for scan code set 1 in its
/// start state. Nothing is stated of the value, which is opaque here.
#[verifier::external_body]
fn scancode_set1_new() -> (s: ScancodeSet1) {
    ScancodeSet1::new()
}

/// pc_keyboard's `layouts::Us104Key`, the US 104-key layout (a unit value).
#[verifier::external_body]
fn us104_layout() -> (l: layouts::Us104Key) {
    layouts::Us104Key
}

/// pc_keyboard's `Keyboard::new` for scan code set 1 and the US 104-key
/// layout: the keyboard keeps the Ctrl mapping `ctrl`, starts with Num Lock
/// on and every modifier key up, and has been fed no scan code yet.
#[verifier::external_body]
fn keyboard_new(set: ScancodeSet1, layout: layouts::Us104Key, ctrl: CtrlHandling) -> (k: KeyDecoder)
    ensures
        keyboard_ctrl_handling(k) == ctrl,
        keyboard_modifiers(k) == initial_modifiers(),
        keyboard_bytes_fed(k) == Seq::<u8>::empty(),
{
    let handle = match ctrl {
        CtrlHandling::MapLettersToUnicode => HandleControl::MapLettersToUnicode,
        CtrlHandling::Ignore => HandleControl::Ignore,
    };
    KeyDecoder { keyboard: Keyboard::new(set, layout, handle) }
}

/// pc_keyboard's `Keyboard::add_byte`: feeds one scan code byte to the
/// decoder and gives the key event it completes, if any; a decoding error
/// gives `None`. Only the scan code decoder moves, by the byte: the Ctrl
/// mapping and the modifiers stay. The event is a function of the bytes fed
/// before and of this byte.
#[verifier::external_body]
fn keyboard_add_byte(kb: &mut KeyDecoder, byte: u8) -> (r: Option<
    KeyEvent,
>)
    ensures
        r == scancode_event_after(keyboard_bytes_fed(*old(kb)), byte),
        keyboard_bytes_fed(*final(kb)) == keyboard_bytes_fed(*old(kb)).push(byte),
        keyboard_ctrl_handling(*final(kb)) == keyboard_ctrl_handling(*old(kb)),
        keyboard_modifiers(*final(kb)) == keyboard_modifiers(*old(kb)),
{
    match kb.keyboard.add_byte(byte) {
        Ok(ev) => ev,
        Err(_) => None,
    }
}

/// pc_keyboard's `Keyboard::process_keyevent`: turns a key event into a
/// character or a raw key under the current modifiers, or into nothing (a key
/// release), and updates the modifiers for a modifier key. The result is a
/// function of the modifiers and the Ctrl mapping before the call and of the
/// event; the new modifiers are a function of the old ones and the event;
/// the Ctrl mapping and the scan code decoder stay.
#[verifier::external_body]
fn keyboard_process_keyevent(
    kb: &mut KeyDecoder,
    ev: KeyEvent,
) -> (r: Option<KeyInput>)
    ensures
        keyboard_modifiers(*final(kb)) == keyboard_modifiers_after(keyboard_modifiers(*old(kb)), ev),
        keyboard_bytes_fed(*final(kb)) == keyboard_bytes_fed(*old(kb)),
        r == keyboard_key_for_event(keyboard_modifiers(*old(kb)), keyboard_ctrl_handling(*old(kb)), ev),
        keyboard_ctrl_handling(*final(kb)) == keyboard_ctrl_handling(*old(kb)),
{
    match kb.keyboard.process_keyevent(ev) {
        Some(DecodedKey::Unicode(c)) => Some(KeyInput::Unicode(c)),
        Some(DecodedKey::RawKey(_)) => Some(KeyInput::RawKey),
        None => None,
    }
}

/// The interactive menu: a PS/2 scan code set 1 decoder with the US layout,
/// whose decoded keys select the screen to show.
pub struct Shell {
    keyboard: KeyDecoder,
}

/// The answer of the menu to one scan code byte.
#[derive(Clone, Copy, Debug, PartialEq, Eq, Structural)]
pub struct ScancodeResult {
    /// The key the byte completed, if any.
    pub key: Option<KeyInput>,
    /// What to show.
    pub choice: MenuChoice,
}

impl Shell {
    /// The Ctrl mapping of the menu's keyboard.
    pub closed spec fn ctrl_handling_spec(&self) -> CtrlHandling {
        keyboard_ctrl_handling(self.keyboard)
    }

    /// The modifier state of the menu's keyboard.
    pub closed spec fn modifiers_spec(&self) -> KeyModifiers {
        keyboard_modifiers(self.keyboard)
    }

    /// The scan code bytes the menu has been fed, oldest first.
    pub closed spec fn history_spec(&self) -> Seq<u8> {
        keyboard_bytes_fed(self.keyboard)
    }

    /// The key event that the menu's keyboard completes when fed `byte`.
    pub open spec fn byte_event_spec(&self, byte: u8) -> Option<KeyEvent> {
        scancode_event_after(self.history_spec(), byte)
    }

    /// The Ctrl mapping of the menu's keyboard.
    pub fn ctrl_handling(&self) -> (c: CtrlHandling)
        ensures
            c == self.ctrl_handling_spec(),
    {
        keyboard_get_ctrl_handling(&self.keyboard)
    }

    /// The modifier state of the menu's keyboard.
    pub fn modifiers(&self) -> (m: KeyModifiers)
        ensures
            m == self.modifiers_spec(),
    {
        keyboard_get_modifiers(&self.keyboard)
    }

    /// A menu reading scan code set 1 with the US 104-key layout and Ctrl
    /// passed through.
    pub fn new() -> (s: Self)
        ensures
            s.ctrl_handling_spec() == CtrlHandling::Ignore,
            s.modifiers_spec() == initial_modifiers(),
            s.history_spec() == Seq::<u8>::empty(),
    {
        let set = scancode_set1_new();
        let layout = us104_layout();
        Shell { keyboard: keyboard_new(set, layout, CtrlHandling::Ignore) }
    }

    /// Feeds one scan code byte to the keyboard decoder; a key it completes
    /// is answered as `menu_choice` says, and no key is ignored.
    pub fn handle_scancode(&mut self, scancode: u8) -> (r: ScancodeResult)
        ensures
            final(self).ctrl_handling_spec() == old(self).ctrl_handling_spec(),
            r.key == match old(self).byte_event_spec(scancode) {
                Some(ev) => keyboard_key_for_event(old(self).modifiers_spec(), old(self).ctrl_handling_spec(), ev),
                None => None,
            },
            final(self).history_spec() == old(self).history_spec().push(scancode),
            final(self).modifiers_spec() == match old(self).byte_event_spec(scancode) {
                Some(ev) => keyboard_modifiers_after(old(self).modifiers_spec(), ev),
                None => old(self).modifiers_spec(),
            },
            r.choice == match r.key {
                Some(k) => menu_choice_for(k),
                None => MenuChoice::Ignored,
            },
    {
        match keyboard_add_byte(&mut self.keyboard, scancode) {
            Some(ev) => {
                let key = keyboard_process_keyevent(&mut self.keyboard, ev);
                match key {
                    Some(k) => ScancodeResult { key, choice: menu_choice(k) },
                    None => ScancodeResult { key: None, choice: MenuChoice::Ignored },
                }
            },
            None => ScancodeResult { key: None, choice: MenuChoice::Ignored },
        }
    }
}

} // verus!
