use vstd::prelude::*;

verus! {

/// A logical key, classified from a virtual-key code.
#[derive(Debug, Clone, Copy, PartialEq, Eq, Structural)]
pub enum KeyId {
    Space,
    Return,
    Backspace,
    Tab,
    Escape,
    Delete,
    LeftArrow,
    RightArrow,
    UpArrow,
    DownArrow,
    Home,
    End,
    PageUp,
    PageDown,
    KeyA,
    KeyB,
    KeyC,
    KeyD,
    KeyE,
    KeyF,
    KeyG,
    KeyH,
    KeyI,
    KeyJ,
    KeyK,
    KeyL,
    KeyM,
    KeyN,
    KeyO,
    KeyP,
    KeyQ,
    KeyR,
    KeyS,
    KeyT,
    KeyU,
    KeyV,
    KeyW,
    KeyX,
    KeyY,
    KeyZ,
    Num0,
    Num1,
    Num2,
    Num3,
    Num4,
    Num5,
    Num6,
    Num7,
    Num8,
    Num9,
    Minus,
    Equal,
    LeftBracket,
    RightBracket,
    Quote,
    Comma,
    Dot,
    Slash,
    SemiColon,
    BackSlash,
    BackQuote,
    Unknown(u32),
}

/// A mouse button whose press resets the edit buffer.
#[derive(Debug, Clone, Copy, PartialEq, Eq, Structural)]
pub enum MouseButton {
    Left,
    Right,
    Middle,
}

/// A normalized input event, carried from the capture layer to the
/// processing thread.
#[derive(Debug, Clone, Copy, PartialEq, Eq, Structural)]
pub enum HookMessage {
    KeyDown { key: KeyId, vk_code: u32, scan_code: u32 },
    MouseDown(MouseButton),
}

/// The virtual-key code that a logical key stands for.
pub open spec fn vk_of(k: KeyId) -> u32 {
    match k {
        KeyId::Space => 0x20,
        KeyId::Return => 0x0D,
        KeyId::Backspace => 0x08,
        KeyId::Tab => 0x09,
        KeyId::Escape => 0x1B,
        KeyId::Delete => 0x2E,
        KeyId::LeftArrow => 0x25,
        KeyId::RightArrow => 0x27,
        KeyId::UpArrow => 0x26,
        KeyId::DownArrow => 0x28,
        KeyId::Home => 0x24,
        KeyId::End => 0x23,
        KeyId::PageUp => 0x21,
        KeyId::PageDown => 0x22,
        KeyId::KeyA => 0x41,
        KeyId::KeyB => 0x42,
        KeyId::KeyC => 0x43,
        KeyId::KeyD => 0x44,
        KeyId::KeyE => 0x45,
        KeyId::KeyF => 0x46,
        KeyId::KeyG => 0x47,
        KeyId::KeyH => 0x48,
        KeyId::KeyI => 0x49,
        KeyId::KeyJ => 0x4A,
        KeyId::KeyK => 0x4B,
        KeyId::KeyL => 0x4C,
        KeyId::KeyM => 0x4D,
        KeyId::KeyN => 0x4E,
        KeyId::KeyO => 0x4F,
        KeyId::KeyP => 0x50,
        KeyId::KeyQ => 0x51,
        KeyId::KeyR => 0x52,
        KeyId::KeyS => 0x53,
        KeyId::KeyT => 0x54,
        KeyId::KeyU => 0x55,
        KeyId::KeyV => 0x56,
        KeyId::KeyW => 0x57,
        KeyId::KeyX => 0x58,
        KeyId::KeyY => 0x59,
        KeyId::KeyZ => 0x5A,
        KeyId::Num0 => 0x30,
        KeyId::Num1 => 0x31,
        KeyId::Num2 => 0x32,
        KeyId::Num3 => 0x33,
        KeyId::Num4 => 0x34,
        KeyId::Num5 => 0x35,
        KeyId::Num6 => 0x36,
        KeyId::Num7 => 0x37,
        KeyId::Num8 => 0x38,
        KeyId::Num9 => 0x39,
        KeyId::Minus => 0xBD,
        KeyId::Equal => 0xBB,
        KeyId::LeftBracket => 0xDB,
        KeyId::RightBracket => 0xDD,
        KeyId::Quote => 0xDE,
        KeyId::Comma => 0xBC,
        KeyId::Dot => 0xBE,
        KeyId::Slash => 0xBF,
        KeyId::SemiColon => 0xBA,
        KeyId::BackSlash => 0xDC,
        KeyId::BackQuote => 0xC0,
        KeyId::Unknown(code) => code,
    }
}

/// Classifies a virtual-key code: the result stands for `vk`, and is the
/// catch-all variant only for a code that no named key has.
pub fn vk_to_key_id(vk: u32) -> (r: KeyId)
    ensures
        vk_of(r) == vk,
        r is Unknown ==> forall|k: KeyId| #[trigger] vk_of(k) == vk ==> k is Unknown,
{
    match vk {
        0x20 => KeyId::Space,
        0x0D => KeyId::Return,
        0x08 => KeyId::Backspace,
        0x09 => KeyId::Tab,
        0x1B => KeyId::Escape,
        0x2E => KeyId::Delete,
        0x25 => KeyId::LeftArrow,
        0x27 => KeyId::RightArrow,
        0x26 => KeyId::UpArrow,
        0x28 => KeyId::DownArrow,
        0x24 => KeyId::Home,
        0x23 => KeyId::End,
        0x21 => KeyId::PageUp,
        0x22 => KeyId::PageDown,
        0x41 => KeyId::KeyA,
        0x42 => KeyId::KeyB,
        0x43 => KeyId::KeyC,
        0x44 => KeyId::KeyD,
        0x45 => KeyId::KeyE,
        0x46 => KeyId::KeyF,
        0x47 => KeyId::KeyG,
        0x48 => KeyId::KeyH,
        0x49 => KeyId::KeyI,
        0x4A => KeyId::KeyJ,
        0x4B => KeyId::KeyK,
        0x4C => KeyId::KeyL,
        0x4D => KeyId::KeyM,
        0x4E => KeyId::KeyN,
        0x4F => KeyId::KeyO,
        0x50 => KeyId::KeyP,
        0x51 => KeyId::KeyQ,
        0x52 => KeyId::KeyR,
        0x53 => KeyId::KeyS,
        0x54 => KeyId::KeyT,
        0x55 => KeyId::KeyU,
        0x56 => KeyId::KeyV,
        0x57 => KeyId::KeyW,
        0x58 => KeyId::KeyX,
        0x59 => KeyId::KeyY,
        0x5A => KeyId::KeyZ,
        0x30 => KeyId::Num0,
        0x31 => KeyId::Num1,
        0x32 => KeyId::Num2,
        0x33 => KeyId::Num3,
        0x34 => KeyId::Num4,
        0x35 => KeyId::Num5,
        0x36 => KeyId::Num6,
        0x37 => KeyId::Num7,
        0x38 => KeyId::Num8,
        0x39 => KeyId::Num9,
        0xBD => KeyId::Minus,
        0xBB => KeyId::Equal,
        0xDB => KeyId::LeftBracket,
        0xDD => KeyId::RightBracket,
        0xDE => KeyId::Quote,
        0xBC => KeyId::Comma,
        0xBE => KeyId::Dot,
        0xBF => KeyId::Slash,
        0xBA => KeyId::SemiColon,
        0xDC => KeyId::BackSlash,
        0xC0 => KeyId::BackQuote,
        other => KeyId::Unknown(other),
    }
}

} // verus!
