use vstd::prelude::*;
use crate::keys::{HookMessage, KeyId, MouseButton, vk_of, vk_to_key_id};

verus! {

/// The marker carried by every input event that this program injects, so
/// that the capture layer lets it through untouched.
pub const SYNTHETIC_INPUT_TAG: usize = 0x5445_5850;

pub const VK_SPACE_CODE: u32 = 0x20;

pub const VK_RETURN_CODE: u32 = 0x0D;

/// What the keyboard observer does with one notification.
#[derive(Debug, Clone, Copy, PartialEq, Eq)]
pub struct KeyboardVerdict {
    /// The event handed to the processing thread, if any.
    pub forward: Option<HookMessage>,
    /// Whether the notification is kept from the target application.
    pub swallow: bool,
}

/// Decides the fate of a keyboard notification. Injected events pass
/// untouched; while listening is off real key presses are swallowed;
/// otherwise a key press is forwarded, and the two separators are swallowed
/// after forwarding, to be typed again by the processing thread.
pub fn classify_keyboard_event(
    extra_info: usize,
    gate_open: bool,
    key_down: bool,
    vk_code: u32,
    scan_code: u32,
) -> (r: KeyboardVerdict)
    ensures
        extra_info == SYNTHETIC_INPUT_TAG ==> r.forward is None && !r.swallow,
        extra_info != SYNTHETIC_INPUT_TAG && !key_down ==> r.forward is None && !r.swallow,
        extra_info != SYNTHETIC_INPUT_TAG && key_down && !gate_open ==> r.forward is None && r.swallow,
        extra_info != SYNTHETIC_INPUT_TAG && key_down && gate_open ==> {
            &&& r.forward matches Some(HookMessage::KeyDown { key, vk_code: v, scan_code: s })
            &&& vk_of(key) == vk_code && v == vk_code && s == scan_code
            &&& key is Unknown ==> forall|k: KeyId| #[trigger] vk_of(k) == vk_code ==> k is Unknown
            &&& r.swallow == (vk_code == VK_SPACE_CODE || vk_code == VK_RETURN_CODE)
        },
{
    if extra_info == SYNTHETIC_INPUT_TAG || !key_down {
        return KeyboardVerdict { forward: None, swallow: false };
    }
    if !gate_open {
        return KeyboardVerdict { forward: None, swallow: true };
    }
    let key = vk_to_key_id(vk_code);
    KeyboardVerdict {
        forward: Some(HookMessage::KeyDown { key, vk_code, scan_code }),
        swallow: vk_code == VK_SPACE_CODE || vk_code == VK_RETURN_CODE,
    }
}

/// Decides what a mouse notification forwards: a button press, and only
/// while listening is on. Mouse notifications are never swallowed.
pub fn classify_mouse_event(gate_open: bool, button: Option<MouseButton>) -> (r: Option<HookMessage>)
    ensures
        r == (match button {
            Some(b) => if gate_open {
                Some(HookMessage::MouseDown(b))
            } else {
                None
            },
            None => None,
        }),
{
    match button {
        Some(b) => if gate_open {
            Some(HookMessage::MouseDown(b))
        } else {
            None
        },
        None => None,
    }
}

} // verus!
