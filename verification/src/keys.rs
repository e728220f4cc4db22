use vstd::prelude::*;

verus! {

/// Canonical enumeration of the hardware keys this library models.
///
/// The mapping from a native virtual-key code to a `VirtualKey` is total:
/// codes outside the table resolve to the `Unknown` sentinel, never an error.
#[derive(Clone, Copy, Debug, PartialEq, Eq, Hash, Structural)]
pub enum VirtualKey {
    Backspace,
    Tab,
    Enter,
    Shift,
    Ctrl,
    Alt,
    Pause,
    CapsLock,
    Esc,
    Space,
    PageUp,
    PageDown,
    End,
    Home,
    LeftArrow,
    UpArrow,
    RightArrow,
    DownArrow,
    Key0,
    Key1,
    Key2,
    Key3,
    Key4,
    Key5,
    Key6,
    Key7,
    Key8,
    Key9,
    KeyA,
    KeyB,
    KeyC,
    KeyD,
    KeyE,
    KeyF,
    KeyG,
    KeyH,
    KeyI,
    KeyJ,
    KeyK,
    KeyL,
    KeyM,
    KeyN,
    KeyO,
    KeyP,
    KeyQ,
    KeyR,
    KeyS,
    KeyT,
    KeyU,
    KeyV,
    KeyW,
    KeyX,
    KeyY,
    KeyZ,
    LeftShift,
    RightShift,
    LeftControl,
    RightControl,
    Unknown,
}

/// What a raw hardware event represents: a key going down, a key coming up,
/// or an event kind this library does not interpret.
#[derive(Clone, Copy, Debug, PartialEq, Eq, Structural)]
pub enum KeyAction {
    Press,
    Release,
    Unknown,
}

/// The logical state a key can be in, as last observed by the hook engine.
#[derive(Clone, Copy, Debug, PartialEq, Eq, Structural)]
pub enum KeyStatus {
    Pressed,
    Released,
    Unknown,
}

/// One synthetic key event to hand to the OS input queue: which key, and
/// whether it goes down or comes up.
#[derive(Clone, Copy, Debug, PartialEq, Eq, Structural)]
pub struct KeyEvent {
    pub key: VirtualKey,
    pub action: KeyAction,
}

/// The native virtual-key code that stands for `k`.
///
/// `Unknown` is given code 0, which no recognized key uses; the executable
/// `to_native` refuses `Unknown`, since there is nothing to inject for it.
pub open spec fn key_code(k: VirtualKey) -> u32 {
    match k {
        VirtualKey::Backspace => 0x08,
        VirtualKey::Tab => 0x09,
        VirtualKey::Enter => 0x0D,
        VirtualKey::Shift => 0x10,
        VirtualKey::Ctrl => 0x11,
        VirtualKey::Alt => 0x12,
        VirtualKey::Pause => 0x13,
        VirtualKey::CapsLock => 0x14,
        VirtualKey::Esc => 0x1B,
        VirtualKey::Space => 0x20,
        VirtualKey::PageUp => 0x21,
        VirtualKey::PageDown => 0x22,
        VirtualKey::End => 0x23,
        VirtualKey::Home => 0x24,
        VirtualKey::LeftArrow => 0x25,
        VirtualKey::UpArrow => 0x26,
        VirtualKey::RightArrow => 0x27,
        VirtualKey::DownArrow => 0x28,
        VirtualKey::Key0 => 0x30,
        VirtualKey::Key1 => 0x31,
        VirtualKey::Key2 => 0x32,
        VirtualKey::Key3 => 0x33,
        VirtualKey::Key4 => 0x34,
        VirtualKey::Key5 => 0x35,
        VirtualKey::Key6 => 0x36,
        VirtualKey::Key7 => 0x37,
        VirtualKey::Key8 => 0x38,
        VirtualKey::Key9 => 0x39,
        VirtualKey::KeyA => 0x41,
        VirtualKey::KeyB => 0x42,
        VirtualKey::KeyC => 0x43,
        VirtualKey::KeyD => 0x44,
        VirtualKey::KeyE => 0x45,
        VirtualKey::KeyF => 0x46,
        VirtualKey::KeyG => 0x47,
        VirtualKey::KeyH => 0x48,
        VirtualKey::KeyI => 0x49,
        VirtualKey::KeyJ => 0x4A,
        VirtualKey::KeyK => 0x4B,
        VirtualKey::KeyL => 0x4C,
        VirtualKey::KeyM => 0x4D,
        VirtualKey::KeyN => 0x4E,
        VirtualKey::KeyO => 0x4F,
        VirtualKey::KeyP => 0x50,
        VirtualKey::KeyQ => 0x51,
        VirtualKey::KeyR => 0x52,
        VirtualKey::KeyS => 0x53,
        VirtualKey::KeyT => 0x54,
        VirtualKey::KeyU => 0x55,
        VirtualKey::KeyV => 0x56,
        VirtualKey::KeyW => 0x57,
        VirtualKey::KeyX => 0x58,
        VirtualKey::KeyY => 0x59,
        VirtualKey::KeyZ => 0x5A,
        VirtualKey::LeftShift => 0xA0,
        VirtualKey::RightShift => 0xA1,
        VirtualKey::LeftControl => 0xA2,
        VirtualKey::RightControl => 0xA3,
        VirtualKey::Unknown => 0x00,
    }
}

/// The key a native virtual-key code denotes; codes outside the table fall
/// to `Unknown`, so the mapping is total.
pub open spec fn key_of_code(c: u32) -> VirtualKey {
    if c == 0x08 {
        VirtualKey::Backspace
    } else if c == 0x09 {
        VirtualKey::Tab
    } else if c == 0x0D {
        VirtualKey::Enter
    } else if c == 0x10 {
        VirtualKey::Shift
    } else if c == 0x11 {
        VirtualKey::Ctrl
    } else if c == 0x12 {
        VirtualKey::Alt
    } else if c == 0x13 {
        VirtualKey::Pause
    } else if c == 0x14 {
        VirtualKey::CapsLock
    } else if c == 0x1B {
        VirtualKey::Esc
    } else if c == 0x20 {
        VirtualKey::Space
    } else if c == 0x21 {
        VirtualKey::PageUp
    } else if c == 0x22 {
        VirtualKey::PageDown
    } else if c == 0x23 {
        VirtualKey::End
    } else if c == 0x24 {
        VirtualKey::Home
    } else if c == 0x25 {
        VirtualKey::LeftArrow
    } else if c == 0x26 {
        VirtualKey::UpArrow
    } else if c == 0x27 {
        VirtualKey::RightArrow
    } else if c == 0x28 {
        VirtualKey::DownArrow
    } else if c == 0x30 {
        VirtualKey::Key0
    } else if c == 0x31 {
        VirtualKey::Key1
    } else if c == 0x32 {
        VirtualKey::Key2
    } else if c == 0x33 {
        VirtualKey::Key3
    } else if c == 0x34 {
        VirtualKey::Key4
    } else if c == 0x35 {
        VirtualKey::Key5
    } else if c == 0x36 {
        VirtualKey::Key6
    } else if c == 0x37 {
        VirtualKey::Key7
    } else if c == 0x38 {
        VirtualKey::Key8
    } else if c == 0x39 {
        VirtualKey::Key9
    } else if c == 0x41 {
        VirtualKey::KeyA
    } else if c == 0x42 {
        VirtualKey::KeyB
    } else if c == 0x43 {
        VirtualKey::KeyC
    } else if c == 0x44 {
        VirtualKey::KeyD
    } else if c == 0x45 {
        VirtualKey::KeyE
    } else if c == 0x46 {
        VirtualKey::KeyF
    } else if c == 0x47 {
        VirtualKey::KeyG
    } else if c == 0x48 {
        VirtualKey::KeyH
    } else if c == 0x49 {
        VirtualKey::KeyI
    } else if c == 0x4A {
        VirtualKey::KeyJ
    } else if c == 0x4B {
        VirtualKey::KeyK
    } else if c == 0x4C {
        VirtualKey::KeyL
    } else if c == 0x4D {
        VirtualKey::KeyM
    } else if c == 0x4E {
        VirtualKey::KeyN
    } else if c == 0x4F {
        VirtualKey::KeyO
    } else if c == 0x50 {
        VirtualKey::KeyP
    } else if c == 0x51 {
        VirtualKey::KeyQ
    } else if c == 0x52 {
        VirtualKey::KeyR
    } else if c == 0x53 {
        VirtualKey::KeyS
    } else if c == 0x54 {
        VirtualKey::KeyT
    } else if c == 0x55 {
        VirtualKey::KeyU
    } else if c == 0x56 {
        VirtualKey::KeyV
    } else if c == 0x57 {
        VirtualKey::KeyW
    } else if c == 0x58 {
        VirtualKey::KeyX
    } else if c == 0x59 {
        VirtualKey::KeyY
    } else if c == 0x5A {
        VirtualKey::KeyZ
    } else if c == 0xA0 {
        VirtualKey::LeftShift
    } else if c == 0xA1 {
        VirtualKey::RightShift
    } else if c == 0xA2 {
        VirtualKey::LeftControl
    } else if c == 0xA3 {
        VirtualKey::RightControl
    } else {
        VirtualKey::Unknown
    }
}

/// A native code is recognized when it denotes a real key.
pub open spec fn recognized(c: u32) -> bool {
    key_of_code(c) != VirtualKey::Unknown
}

/// Total classification of a native virtual-key code.
pub fn from_native(code: u32) -> (k: VirtualKey)
    ensures
        k == key_of_code(code),
{
    if code == 0x08 {
        VirtualKey::Backspace
    } else if code == 0x09 {
        VirtualKey::Tab
    } else if code == 0x0D {
        VirtualKey::Enter
    } else if code == 0x10 {
        VirtualKey::Shift
    } else if code == 0x11 {
        VirtualKey::Ctrl
    } else if code == 0x12 {
        VirtualKey::Alt
    } else if code == 0x13 {
        VirtualKey::Pause
    } else if code == 0x14 {
        VirtualKey::CapsLock
    } else if code == 0x1B {
        VirtualKey::Esc
    } else if code == 0x20 {
        VirtualKey::Space
    } else if code == 0x21 {
        VirtualKey::PageUp
    } else if code == 0x22 {
        VirtualKey::PageDown
    } else if code == 0x23 {
        VirtualKey::End
    } else if code == 0x24 {
        VirtualKey::Home
    } else if code == 0x25 {
        VirtualKey::LeftArrow
    } else if code == 0x26 {
        VirtualKey::UpArrow
    } else if code == 0x27 {
        VirtualKey::RightArrow
    } else if code == 0x28 {
        VirtualKey::DownArrow
    } else if code == 0x30 {
        VirtualKey::Key0
    } else if code == 0x31 {
        VirtualKey::Key1
    } else if code == 0x32 {
        VirtualKey::Key2
    } else if code == 0x33 {
        VirtualKey::Key3
    } else if code == 0x34 {
        VirtualKey::Key4
    } else if code == 0x35 {
        VirtualKey::Key5
    } else if code == 0x36 {
        VirtualKey::Key6
    } else if code == 0x37 {
        VirtualKey::Key7
    } else if code == 0x38 {
        VirtualKey::Key8
    } else if code == 0x39 {
        VirtualKey::Key9
    } else if code == 0x41 {
        VirtualKey::KeyA
    } else if code == 0x42 {
        VirtualKey::KeyB
    } else if code == 0x43 {
        VirtualKey::KeyC
    } else if code == 0x44 {
        VirtualKey::KeyD
    } else if code == 0x45 {
        VirtualKey::KeyE
    } else if code == 0x46 {
        VirtualKey::KeyF
    } else if code == 0x47 {
        VirtualKey::KeyG
    } else if code == 0x48 {
        VirtualKey::KeyH
    } else if code == 0x49 {
        VirtualKey::KeyI
    } else if code == 0x4A {
        VirtualKey::KeyJ
    } else if code == 0x4B {
        VirtualKey::KeyK
    } else if code == 0x4C {
        VirtualKey::KeyL
    } else if code == 0x4D {
        VirtualKey::KeyM
    } else if code == 0x4E {
        VirtualKey::KeyN
    } else if code == 0x4F {
        VirtualKey::KeyO
    } else if code == 0x50 {
        VirtualKey::KeyP
    } else if code == 0x51 {
        VirtualKey::KeyQ
    } else if code == 0x52 {
        VirtualKey::KeyR
    } else if code == 0x53 {
        VirtualKey::KeyS
    } else if code == 0x54 {
        VirtualKey::KeyT
    } else if code == 0x55 {
        VirtualKey::KeyU
    } else if code == 0x56 {
        VirtualKey::KeyV
    } else if code == 0x57 {
        VirtualKey::KeyW
    } else if code == 0x58 {
        VirtualKey::KeyX
    } else if code == 0x59 {
        VirtualKey::KeyY
    } else if code == 0x5A {
        VirtualKey::KeyZ
    } else if code == 0xA0 {
        VirtualKey::LeftShift
    } else if code == 0xA1 {
        VirtualKey::RightShift
    } else if code == 0xA2 {
        VirtualKey::LeftControl
    } else if code == 0xA3 {
        VirtualKey::RightControl
    } else {
        VirtualKey::Unknown
    }
}

/// The native code to inject for a real key; `Unknown` has no native code.
pub fn to_native(k: VirtualKey) -> (c: u32)
    requires
        k != VirtualKey::Unknown,
    ensures
        c == key_code(k),
        recognized(c),
{
    proof {
        lemma_key_code_round_trip(k);
    }
    match k {
        VirtualKey::Backspace => 0x08,
        VirtualKey::Tab => 0x09,
        VirtualKey::Enter => 0x0D,
        VirtualKey::Shift => 0x10,
        VirtualKey::Ctrl => 0x11,
        VirtualKey::Alt => 0x12,
        VirtualKey::Pause => 0x13,
        VirtualKey::CapsLock => 0x14,
        VirtualKey::Esc => 0x1B,
        VirtualKey::Space => 0x20,
        VirtualKey::PageUp => 0x21,
        VirtualKey::PageDown => 0x22,
        VirtualKey::End => 0x23,
        VirtualKey::Home => 0x24,
        VirtualKey::LeftArrow => 0x25,
        VirtualKey::UpArrow => 0x26,
        VirtualKey::RightArrow => 0x27,
        VirtualKey::DownArrow => 0x28,
        VirtualKey::Key0 => 0x30,
        VirtualKey::Key1 => 0x31,
        VirtualKey::Key2 => 0x32,
        VirtualKey::Key3 => 0x33,
        VirtualKey::Key4 => 0x34,
        VirtualKey::Key5 => 0x35,
        VirtualKey::Key6 => 0x36,
        VirtualKey::Key7 => 0x37,
        VirtualKey::Key8 => 0x38,
        VirtualKey::Key9 => 0x39,
        VirtualKey::KeyA => 0x41,
        VirtualKey::KeyB => 0x42,
        VirtualKey::KeyC => 0x43,
        VirtualKey::KeyD => 0x44,
        VirtualKey::KeyE => 0x45,
        VirtualKey::KeyF => 0x46,
        VirtualKey::KeyG => 0x47,
        VirtualKey::KeyH => 0x48,
        VirtualKey::KeyI => 0x49,
        VirtualKey::KeyJ => 0x4A,
        VirtualKey::KeyK => 0x4B,
        VirtualKey::KeyL => 0x4C,
        VirtualKey::KeyM => 0x4D,
        VirtualKey::KeyN => 0x4E,
        VirtualKey::KeyO => 0x4F,
        VirtualKey::KeyP => 0x50,
        VirtualKey::KeyQ => 0x51,
        VirtualKey::KeyR => 0x52,
        VirtualKey::KeyS => 0x53,
        VirtualKey::KeyT => 0x54,
        VirtualKey::KeyU => 0x55,
        VirtualKey::KeyV => 0x56,
        VirtualKey::KeyW => 0x57,
        VirtualKey::KeyX => 0x58,
        VirtualKey::KeyY => 0x59,
        VirtualKey::KeyZ => 0x5A,
        VirtualKey::LeftShift => 0xA0,
        VirtualKey::RightShift => 0xA1,
        VirtualKey::LeftControl => 0xA2,
        VirtualKey::RightControl => 0xA3,
        VirtualKey::Unknown => 0x00,
    }
}

/// Every key comes back from its own native code; in particular a real key
/// never collides with the `Unknown` code.
pub proof fn lemma_key_code_round_trip(k: VirtualKey)
    ensures
        key_of_code(key_code(k)) == k,
{
}

/// Recognized native codes round-trip through the key model; unrecognized
/// codes resolve to `Unknown`, which has no native code and never round-trips.
pub proof fn lemma_native_round_trip(c: u32)
    ensures
        recognized(c) ==> key_code(key_of_code(c)) == c,
        !recognized(c) ==> key_of_code(c) == VirtualKey::Unknown,
{
}

/// The action a native event code denotes: 0x100 is a hardware key-down,
/// 0x101 a hardware key-up; every other event code is left uninterpreted.
pub open spec fn action_of_code(c: u32) -> KeyAction {
    if c == 0x100 {
        KeyAction::Press
    } else if c == 0x101 {
        KeyAction::Release
    } else {
        KeyAction::Unknown
    }
}

/// Total classification of a native event code.
pub fn action_from_native(code: u32) -> (a: KeyAction)
    ensures
        a == action_of_code(code),
{
    if code == 0x100 {
        KeyAction::Press
    } else if code == 0x101 {
        KeyAction::Release
    } else {
        KeyAction::Unknown
    }
}


/// A key capability: press and release queries against the key's state as
/// last observed by the hook engine (never polled from the OS on the hot
/// path), and the synthetic tap a press of the key injects.
pub trait Key {
    /// The key this capability handles.
    spec fn key_spec(&self) -> VirtualKey;

    /// The key's hardware state as last observed by the hook engine.
    spec fn status_spec(&self) -> KeyStatus;

    /// Whether the key's last-observed state is down.
    fn is_pressed(&self) -> (r: bool)
        ensures
            r == (self.status_spec() == KeyStatus::Pressed),
    ;

    /// The logical negation of `is_pressed`; never independently observed.
    fn is_released(&self) -> (r: bool)
        ensures
            r == (self.status_spec() != KeyStatus::Pressed),
    ;

    /// The synthetic events a press of this key hands to the OS input
    /// queue: a press and its paired release. Only a real key can be
    /// injected, since `Unknown` has no native code.
    fn press(&self) -> (evs: Vec<KeyEvent>)
        requires
            self.key_spec() != VirtualKey::Unknown,
        ensures
            evs@ == seq![
                (KeyEvent { key: self.key_spec(), action: KeyAction::Press }),
                (KeyEvent { key: self.key_spec(), action: KeyAction::Release }),
            ],
    ;
}


/// The text the display layer shows for a key: a short label such as
/// "Ctrl" for either control key, the bare character for letters and
/// digits, and the key's name otherwise.
pub open spec fn key_label_spec(k: VirtualKey) -> Seq<char> {
    match k {
        VirtualKey::Backspace => "Del"@,
        VirtualKey::Tab => "Tab"@,
        VirtualKey::Enter => "Enter"@,
        VirtualKey::Shift => "Shift"@,
        VirtualKey::Ctrl => "Ctrl"@,
        VirtualKey::Alt => "Alt"@,
        VirtualKey::Pause => "Pause"@,
        VirtualKey::CapsLock => "CapsLock"@,
        VirtualKey::Esc => "Esc"@,
        VirtualKey::Space => "Space"@,
        VirtualKey::PageUp => "PageUp"@,
        VirtualKey::PageDown => "PageDown"@,
        VirtualKey::End => "End"@,
        VirtualKey::Home => "Home"@,
        VirtualKey::LeftArrow => "Left"@,
        VirtualKey::UpArrow => "Up"@,
        VirtualKey::RightArrow => "Right"@,
        VirtualKey::DownArrow => "Down"@,
        VirtualKey::Key0 => "0"@,
        VirtualKey::Key1 => "1"@,
        VirtualKey::Key2 => "2"@,
        VirtualKey::Key3 => "3"@,
        VirtualKey::Key4 => "4"@,
        VirtualKey::Key5 => "5"@,
        VirtualKey::Key6 => "6"@,
        VirtualKey::Key7 => "7"@,
        VirtualKey::Key8 => "8"@,
        VirtualKey::Key9 => "9"@,
        VirtualKey::KeyA => "A"@,
        VirtualKey::KeyB => "B"@,
        VirtualKey::KeyC => "C"@,
        VirtualKey::KeyD => "D"@,
        VirtualKey::KeyE => "E"@,
        VirtualKey::KeyF => "F"@,
        VirtualKey::KeyG => "G"@,
        VirtualKey::KeyH => "H"@,
        VirtualKey::KeyI => "I"@,
        VirtualKey::KeyJ => "J"@,
        VirtualKey::KeyK => "K"@,
        VirtualKey::KeyL => "L"@,
        VirtualKey::KeyM => "M"@,
        VirtualKey::KeyN => "N"@,
        VirtualKey::KeyO => "O"@,
        VirtualKey::KeyP => "P"@,
        VirtualKey::KeyQ => "Q"@,
        VirtualKey::KeyR => "R"@,
        VirtualKey::KeyS => "S"@,
        VirtualKey::KeyT => "T"@,
        VirtualKey::KeyU => "U"@,
        VirtualKey::KeyV => "V"@,
        VirtualKey::KeyW => "W"@,
        VirtualKey::KeyX => "X"@,
        VirtualKey::KeyY => "Y"@,
        VirtualKey::KeyZ => "Z"@,
        VirtualKey::LeftShift => "Shift"@,
        VirtualKey::RightShift => "Shift"@,
        VirtualKey::LeftControl => "Ctrl"@,
        VirtualKey::RightControl => "Ctrl"@,
        VirtualKey::Unknown => "Unknown"@,
    }
}

/// The display label for a key.
pub fn key_label(k: VirtualKey) -> (s: String)
    ensures
        s@ == key_label_spec(k),
{
    match k {
        VirtualKey::Backspace => "Del".to_owned(),
        VirtualKey::Tab => "Tab".to_owned(),
        VirtualKey::Enter => "Enter".to_owned(),
        VirtualKey::Shift => "Shift".to_owned(),
        VirtualKey::Ctrl => "Ctrl".to_owned(),
        VirtualKey::Alt => "Alt".to_owned(),
        VirtualKey::Pause => "Pause".to_owned(),
        VirtualKey::CapsLock => "CapsLock".to_owned(),
        VirtualKey::Esc => "Esc".to_owned(),
        VirtualKey::Space => "Space".to_owned(),
        VirtualKey::PageUp => "PageUp".to_owned(),
        VirtualKey::PageDown => "PageDown".to_owned(),
        VirtualKey::End => "End".to_owned(),
        VirtualKey::Home => "Home".to_owned(),
        VirtualKey::LeftArrow => "Left".to_owned(),
        VirtualKey::UpArrow => "Up".to_owned(),
        VirtualKey::RightArrow => "Right".to_owned(),
        VirtualKey::DownArrow => "Down".to_owned(),
        VirtualKey::Key0 => "0".to_owned(),
        VirtualKey::Key1 => "1".to_owned(),
        VirtualKey::Key2 => "2".to_owned(),
        VirtualKey::Key3 => "3".to_owned(),
        VirtualKey::Key4 => "4".to_owned(),
        VirtualKey::Key5 => "5".to_owned(),
        VirtualKey::Key6 => "6".to_owned(),
        VirtualKey::Key7 => "7".to_owned(),
        VirtualKey::Key8 => "8".to_owned(),
        VirtualKey::Key9 => "9".to_owned(),
        VirtualKey::KeyA => "A".to_owned(),
        VirtualKey::KeyB => "B".to_owned(),
        VirtualKey::KeyC => "C".to_owned(),
        VirtualKey::KeyD => "D".to_owned(),
        VirtualKey::KeyE => "E".to_owned(),
        VirtualKey::KeyF => "F".to_owned(),
        VirtualKey::KeyG => "G".to_owned(),
        VirtualKey::KeyH => "H".to_owned(),
        VirtualKey::KeyI => "I".to_owned(),
        VirtualKey::KeyJ => "J".to_owned(),
        VirtualKey::KeyK => "K".to_owned(),
        VirtualKey::KeyL => "L".to_owned(),
        VirtualKey::KeyM => "M".to_owned(),
        VirtualKey::KeyN => "N".to_owned(),
        VirtualKey::KeyO => "O".to_owned(),
        VirtualKey::KeyP => "P".to_owned(),
        VirtualKey::KeyQ => "Q".to_owned(),
        VirtualKey::KeyR => "R".to_owned(),
        VirtualKey::KeyS => "S".to_owned(),
        VirtualKey::KeyT => "T".to_owned(),
        VirtualKey::KeyU => "U".to_owned(),
        VirtualKey::KeyV => "V".to_owned(),
        VirtualKey::KeyW => "W".to_owned(),
        VirtualKey::KeyX => "X".to_owned(),
        VirtualKey::KeyY => "Y".to_owned(),
        VirtualKey::KeyZ => "Z".to_owned(),
        VirtualKey::LeftShift => "Shift".to_owned(),
        VirtualKey::RightShift => "Shift".to_owned(),
        VirtualKey::LeftControl => "Ctrl".to_owned(),
        VirtualKey::RightControl => "Ctrl".to_owned(),
        VirtualKey::Unknown => "Unknown".to_owned(),
    }
}

} // verus!
