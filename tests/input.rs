use text_expander::capture::{classify_keyboard_event, classify_mouse_event, SYNTHETIC_INPUT_TAG};
use text_expander::engine::Separator;
use text_expander::executor::{ExpansionError, KeyTap};
use text_expander::injector::{
    backspace_inputs, check_sent, paste_chord_inputs, replay_inputs, select_to_line_end_inputs, separator_inputs,
    unicode_text_inputs, SyntheticKey, VK_BACK, VK_CONTROL, VK_END, VK_RETURN, VK_SHIFT, VK_SPACE, VK_V,
};
use text_expander::keys::{vk_to_key_id, HookMessage, KeyId, MouseButton};
use text_expander::text::{encode_wide, normalize_line_endings};

fn down(vk: u16) -> SyntheticKey {
    SyntheticKey { vk, scan: 0, unicode: false, key_up: false }
}

fn up(vk: u16) -> SyntheticKey {
    SyntheticKey { vk, scan: 0, unicode: false, key_up: true }
}

fn unit(u: u16, key_up: bool) -> SyntheticKey {
    SyntheticKey { vk: 0, scan: u, unicode: true, key_up }
}

#[test]
fn virtual_key_codes_classify() {
    assert_eq!(vk_to_key_id(0x20), KeyId::Space);
    assert_eq!(vk_to_key_id(0x0D), KeyId::Return);
    assert_eq!(vk_to_key_id(0x41), KeyId::KeyA);
    assert_eq!(vk_to_key_id(0x5A), KeyId::KeyZ);
    assert_eq!(vk_to_key_id(0x39), KeyId::Num9);
    assert_eq!(vk_to_key_id(0xBF), KeyId::Slash);
    assert_eq!(vk_to_key_id(0xC0), KeyId::BackQuote);
    assert_eq!(vk_to_key_id(0x25), KeyId::LeftArrow);
    assert_eq!(vk_to_key_id(0x70), KeyId::Unknown(0x70));
}

#[test]
fn wide_strings_are_zero_terminated_utf16() {
    assert_eq!(encode_wide("Close"), vec![0x43, 0x6C, 0x6F, 0x73, 0x65, 0]);
    assert_eq!(encode_wide(""), vec![0]);
    assert_eq!(encode_wide("é😀"), vec![0xE9, 0xD83D, 0xDE00, 0]);
}

#[test]
fn line_endings_normalize() {
    assert_eq!(normalize_line_endings("a\nb\n"), "a\r\nb\r\n");
    assert_eq!(normalize_line_endings("plain"), "plain");
}

#[test]
fn synthetic_events_pass_untouched() {
    let v = classify_keyboard_event(SYNTHETIC_INPUT_TAG, false, true, 0x20, 0x39);
    assert_eq!(v.forward, None);
    assert!(!v.swallow);
}

#[test]
fn closed_gate_swallows_real_key_presses() {
    let v = classify_keyboard_event(0, false, true, 0x41, 0x1E);
    assert_eq!(v.forward, None);
    assert!(v.swallow);
    let up = classify_keyboard_event(0, false, false, 0x41, 0x1E);
    assert!(!up.swallow);
}

#[test]
fn separators_are_forwarded_then_swallowed() {
    let v = classify_keyboard_event(0, true, true, 0x20, 0x39);
    assert_eq!(v.forward, Some(HookMessage::KeyDown { key: KeyId::Space, vk_code: 0x20, scan_code: 0x39 }));
    assert!(v.swallow);
    let r = classify_keyboard_event(0, true, true, 0x0D, 0x1C);
    assert_eq!(r.forward, Some(HookMessage::KeyDown { key: KeyId::Return, vk_code: 0x0D, scan_code: 0x1C }));
    assert!(r.swallow);
}

#[test]
fn other_keys_are_forwarded_and_passed() {
    let v = classify_keyboard_event(0, true, true, 0x41, 0x1E);
    assert_eq!(v.forward, Some(HookMessage::KeyDown { key: KeyId::KeyA, vk_code: 0x41, scan_code: 0x1E }));
    assert!(!v.swallow);
    let k = classify_keyboard_event(0, true, false, 0x41, 0x1E);
    assert_eq!(k.forward, None);
    assert!(!k.swallow);
}

#[test]
fn mouse_presses_forwarded_only_when_open() {
    assert_eq!(classify_mouse_event(true, Some(MouseButton::Left)), Some(HookMessage::MouseDown(MouseButton::Left)));
    assert_eq!(classify_mouse_event(false, Some(MouseButton::Left)), None);
    assert_eq!(classify_mouse_event(true, None), None);
}

#[test]
fn backspaces_alternate_down_and_up() {
    assert_eq!(backspace_inputs(2), vec![down(VK_BACK), up(VK_BACK), down(VK_BACK), up(VK_BACK)]);
    assert_eq!(backspace_inputs(0), vec![]);
}

#[test]
fn unicode_text_turns_line_breaks_into_return() {
    assert_eq!(
        unicode_text_inputs("a\r\nb"),
        vec![unit(0x61, false), unit(0x61, true), down(VK_RETURN), up(VK_RETURN), unit(0x62, false), unit(0x62, true)]
    );
    assert_eq!(unicode_text_inputs(""), vec![]);
}

#[test]
fn chords() {
    assert_eq!(paste_chord_inputs(), vec![down(VK_CONTROL), down(VK_V), up(VK_V), up(VK_CONTROL)]);
    assert_eq!(select_to_line_end_inputs(), vec![down(VK_SHIFT), down(VK_END), up(VK_END), up(VK_SHIFT)]);
    assert_eq!(separator_inputs(Separator::Space), vec![down(VK_SPACE), up(VK_SPACE)]);
    assert_eq!(separator_inputs(Separator::Return), vec![down(VK_RETURN), up(VK_RETURN)]);
}

#[test]
fn replayed_keys_keep_scan_codes() {
    let keys = vec![KeyTap { vk_code: 0x41, scan_code: 0x1E }, KeyTap { vk_code: 0x42, scan_code: 0x30 }];
    assert_eq!(
        replay_inputs(&keys),
        vec![
            SyntheticKey { vk: 0x41, scan: 0x1E, unicode: false, key_up: false },
            SyntheticKey { vk: 0x41, scan: 0x1E, unicode: false, key_up: true },
            SyntheticKey { vk: 0x42, scan: 0x30, unicode: false, key_up: false },
            SyntheticKey { vk: 0x42, scan: 0x30, unicode: false, key_up: true },
        ]
    );
}

#[test]
fn short_send_is_an_error() {
    assert_eq!(check_sent(4, 4), Ok(()));
    assert_eq!(check_sent(3, 4), Err(ExpansionError::InjectionShortSend));
    assert_eq!(check_sent(0, 0), Ok(()));
}
