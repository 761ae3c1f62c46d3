use text_expander::date::CivilDate;
use text_expander::engine::{Action, ExpansionData, Separator, TypingState};
use text_expander::keys::{HookMessage, KeyId, MouseButton};
use text_expander::table::ExpansionFile;

fn day(y: i32, m: u32, d: u32) -> CivilDate {
    CivilDate::from_ymd(y, m, d).unwrap()
}

fn table() -> ExpansionFile {
    let mut t = ExpansionFile::new();
    t.insert_case_sensitive("btw".to_string(), "by the way".to_string());
    t.insert_case_insensitive("addr".to_string(), "1 Main St\nSpringfield".to_string());
    t
}

fn key_for(c: char) -> KeyId {
    match c {
        'a' => KeyId::KeyA,
        'b' => KeyId::KeyB,
        'd' => KeyId::KeyD,
        'f' => KeyId::KeyF,
        'm' => KeyId::KeyM,
        'n' => KeyId::KeyN,
        'o' => KeyId::KeyO,
        'r' => KeyId::KeyR,
        's' => KeyId::KeyS,
        't' => KeyId::KeyT,
        'w' => KeyId::KeyW,
        'x' => KeyId::KeyX,
        'y' => KeyId::KeyY,
        'z' => KeyId::KeyZ,
        '/' => KeyId::Slash,
        '-' => KeyId::Minus,
        '0'..='9' => KeyId::Num0,
        _ => KeyId::Quote,
    }
}

fn type_text(d: &mut ExpansionData, s: &str, today: CivilDate) {
    for c in s.chars() {
        let a = d.process_key(key_for(c), Some(c.to_string()), today);
        assert_eq!(a, Action::Nothing);
    }
}

#[test]
fn typed_trigger_then_space_expands() {
    let today = day(2024, 1, 1);
    let mut d = ExpansionData::new(table());
    type_text(&mut d, "btw", today);
    assert_eq!(d.key_buffer(), "btw");
    assert_eq!(d.typing_state(), TypingState::Typing);
    let a = d.process_key(KeyId::Space, None, today);
    assert_eq!(
        a,
        Action::Expand { delete_count: 3, replacement: "by the way".to_string(), separator: Separator::Space }
    );
    assert_eq!(d.key_buffer(), "");
    assert_eq!(d.cursor_position(), 0);
    assert_eq!(d.typing_state(), TypingState::Empty);
}

#[test]
fn insensitive_section_matches_exactly() {
    let today = day(2024, 1, 1);
    let mut d = ExpansionData::new(table());
    type_text(&mut d, "addr", today);
    let a = d.process_key(KeyId::Return, None, today);
    assert_eq!(
        a,
        Action::Expand {
            delete_count: 4,
            replacement: "1 Main St\nSpringfield".to_string(),
            separator: Separator::Return
        }
    );
    let mut e = ExpansionData::new(table());
    type_text(&mut e, "ADDR", today);
    assert_eq!(e.process_key(KeyId::Return, None, today), Action::Reinject(Separator::Return));
}

#[test]
fn unmatched_space_is_reinjected_once_and_primes_no_match() {
    let today = day(2024, 1, 1);
    let mut d = ExpansionData::new(table());
    type_text(&mut d, "xyz", today);
    let a = d.process_key(KeyId::Space, None, today);
    assert_eq!(a, Action::Reinject(Separator::Space));
    assert_eq!(d.key_buffer(), "xyz ");
    assert_eq!(d.cursor_position(), 4);
    assert_eq!(d.typing_state(), TypingState::NoMatch);
    let b = d.process_key(KeyId::Space, None, today);
    assert_eq!(b, Action::Reinject(Separator::Space));
    assert_eq!(d.key_buffer(), "");
    assert_eq!(d.typing_state(), TypingState::Empty);
}

#[test]
fn unmatched_return_is_reinjected_and_resets() {
    let today = day(2024, 1, 1);
    let mut d = ExpansionData::new(table());
    type_text(&mut d, "xyz", today);
    assert_eq!(d.process_key(KeyId::Return, None, today), Action::Reinject(Separator::Return));
    assert_eq!(d.key_buffer(), "");
    assert_eq!(d.typing_state(), TypingState::Empty);
}

#[test]
fn separator_on_empty_buffer_is_reinjected() {
    let today = day(2024, 1, 1);
    let mut d = ExpansionData::new(table());
    assert_eq!(d.process_key(KeyId::Space, None, today), Action::Reinject(Separator::Space));
    assert_eq!(d.typing_state(), TypingState::Empty);
    assert_eq!(d.key_buffer(), "");
}

#[test]
fn printable_after_no_match_continues_the_buffer() {
    let today = day(2024, 1, 1);
    let mut d = ExpansionData::new(table());
    type_text(&mut d, "xy", today);
    d.process_key(KeyId::Space, None, today);
    type_text(&mut d, "z", today);
    assert_eq!(d.key_buffer(), "xy z");
    assert_eq!(d.typing_state(), TypingState::Typing);
}

#[test]
fn mouse_click_resets_from_any_state() {
    let today = day(2024, 1, 1);
    let mut d = ExpansionData::new(table());
    type_text(&mut d, "bt", today);
    d.handle_mouse_press(MouseButton::Left);
    assert_eq!(d.key_buffer(), "");
    assert_eq!(d.cursor_position(), 0);
    assert_eq!(d.typing_state(), TypingState::Empty);
    type_text(&mut d, "xy", today);
    d.process_key(KeyId::Space, None, today);
    assert_eq!(d.typing_state(), TypingState::NoMatch);
    let a = d.process_message(HookMessage::MouseDown(MouseButton::Right), None, today);
    assert_eq!(a, Action::Nothing);
    assert_eq!(d.key_buffer(), "");
    assert_eq!(d.typing_state(), TypingState::Empty);
}

#[test]
fn click_mid_trigger_prevents_expansion() {
    let today = day(2024, 1, 1);
    let mut d = ExpansionData::new(table());
    type_text(&mut d, "bt", today);
    d.handle_mouse_press(MouseButton::Middle);
    type_text(&mut d, "w", today);
    assert_eq!(d.process_key(KeyId::Space, None, today), Action::Reinject(Separator::Space));
}

#[test]
fn backspace_removes_before_cursor() {
    let today = day(2024, 1, 1);
    let mut d = ExpansionData::new(table());
    type_text(&mut d, "btx", today);
    d.process_key(KeyId::Backspace, None, today);
    assert_eq!(d.key_buffer(), "bt");
    assert_eq!(d.cursor_position(), 2);
    type_text(&mut d, "w", today);
    assert_eq!(
        d.process_key(KeyId::Space, None, today),
        Action::Expand { delete_count: 3, replacement: "by the way".to_string(), separator: Separator::Space }
    );
}

#[test]
fn backspace_on_empty_buffer_keeps_it_empty() {
    let today = day(2024, 1, 1);
    let mut d = ExpansionData::new(table());
    d.process_key(KeyId::Backspace, None, today);
    assert_eq!(d.key_buffer(), "");
    assert_eq!(d.cursor_position(), 0);
    assert_eq!(d.typing_state(), TypingState::Typing);
}

#[test]
fn arrows_move_the_cursor_and_insert_there() {
    let today = day(2024, 1, 1);
    let mut d = ExpansionData::new(table());
    type_text(&mut d, "bw", today);
    d.process_key(KeyId::LeftArrow, None, today);
    assert_eq!(d.cursor_position(), 1);
    type_text(&mut d, "t", today);
    assert_eq!(d.key_buffer(), "btw");
    assert_eq!(d.cursor_position(), 2);
    d.process_key(KeyId::RightArrow, None, today);
    assert_eq!(d.cursor_position(), 3);
    assert_eq!(
        d.process_key(KeyId::Space, None, today),
        Action::Expand { delete_count: 3, replacement: "by the way".to_string(), separator: Separator::Space }
    );
}

#[test]
fn left_arrow_to_start_resets() {
    let today = day(2024, 1, 1);
    let mut d = ExpansionData::new(table());
    type_text(&mut d, "ab", today);
    d.process_key(KeyId::LeftArrow, None, today);
    assert_eq!(d.key_buffer(), "ab");
    d.process_key(KeyId::LeftArrow, None, today);
    assert_eq!(d.key_buffer(), "");
    assert_eq!(d.cursor_position(), 0);
    assert_eq!(d.typing_state(), TypingState::Empty);
}

#[test]
fn right_arrow_at_end_resets() {
    let today = day(2024, 1, 1);
    let mut d = ExpansionData::new(table());
    type_text(&mut d, "ab", today);
    d.process_key(KeyId::RightArrow, None, today);
    assert_eq!(d.key_buffer(), "");
    assert_eq!(d.typing_state(), TypingState::Empty);
}

#[test]
fn cursor_stays_within_text_over_mixed_events() {
    let today = day(2024, 1, 1);
    let mut d = ExpansionData::new(table());
    let keys = [
        KeyId::KeyA,
        KeyId::KeyB,
        KeyId::LeftArrow,
        KeyId::Backspace,
        KeyId::Backspace,
        KeyId::KeyC,
        KeyId::RightArrow,
        KeyId::KeyD,
        KeyId::LeftArrow,
        KeyId::LeftArrow,
        KeyId::Backspace,
        KeyId::RightArrow,
    ];
    for k in keys {
        d.process_key(k, Some("q".to_string()), today);
        assert!(d.cursor_position() <= d.key_buffer().chars().count());
    }
}

#[test]
fn navigation_keys_reset() {
    let today = day(2024, 1, 1);
    for k in [
        KeyId::UpArrow,
        KeyId::DownArrow,
        KeyId::Escape,
        KeyId::Tab,
        KeyId::PageUp,
        KeyId::PageDown,
        KeyId::Home,
        KeyId::End,
    ] {
        let mut d = ExpansionData::new(table());
        type_text(&mut d, "bt", today);
        assert_eq!(d.process_key(k, None, today), Action::Nothing);
        assert_eq!(d.key_buffer(), "");
        assert_eq!(d.typing_state(), TypingState::Empty);
    }
}

#[test]
fn printable_key_without_text_changes_only_state() {
    let today = day(2024, 1, 1);
    let mut d = ExpansionData::new(table());
    d.process_key(KeyId::KeyC, None, today);
    assert_eq!(d.key_buffer(), "");
    assert_eq!(d.typing_state(), TypingState::Typing);
}

#[test]
fn unknown_and_delete_keys_are_ignored() {
    let today = day(2024, 1, 1);
    let mut d = ExpansionData::new(table());
    type_text(&mut d, "bt", today);
    d.process_key(KeyId::Unknown(0x70), Some("x".to_string()), today);
    d.process_key(KeyId::Delete, None, today);
    assert_eq!(d.key_buffer(), "bt");
    assert_eq!(d.typing_state(), TypingState::Typing);
}

#[test]
fn clear_line_trigger() {
    let today = day(2024, 1, 1);
    let mut d = ExpansionData::new(table());
    type_text(&mut d, "ff", today);
    assert_eq!(
        d.process_key(KeyId::Space, None, today),
        Action::ClearToLineEnd { delete_count: 2, separator: Separator::Space }
    );
    assert_eq!(d.key_buffer(), "");
    assert_eq!(d.typing_state(), TypingState::Empty);
}

#[test]
fn date_stamp_trigger() {
    let today = day(2025, 9, 6);
    let mut d = ExpansionData::new(table());
    type_text(&mut d, "nn", today);
    assert_eq!(
        d.process_key(KeyId::Space, None, today),
        Action::Expand { delete_count: 2, replacement: "9/6/25:".to_string(), separator: Separator::Space }
    );
}

#[test]
fn days_trigger_through_the_state_machine() {
    let today = day(2024, 1, 1);
    let mut d = ExpansionData::new(table());
    type_text(&mut d, "/days7", today);
    assert_eq!(
        d.process_key(KeyId::Space, None, today),
        Action::Expand { delete_count: 6, replacement: "1/8/24".to_string(), separator: Separator::Space }
    );
    assert_eq!(d.typing_state(), TypingState::Empty);
}

#[test]
fn months_trigger_through_the_state_machine() {
    let today = day(2024, 3, 31);
    let mut d = ExpansionData::new(table());
    type_text(&mut d, "/mo-1", today);
    assert_eq!(
        d.process_key(KeyId::Return, None, today),
        Action::Expand { delete_count: 5, replacement: "2/29/24".to_string(), separator: Separator::Return }
    );
}

#[test]
fn table_match_wins_over_special_triggers() {
    let today = day(2024, 1, 1);
    let mut t = table();
    t.insert_case_sensitive("ff".to_string(), "fast forward".to_string());
    let mut d = ExpansionData::new(t);
    type_text(&mut d, "ff", today);
    assert_eq!(
        d.process_key(KeyId::Space, None, today),
        Action::Expand { delete_count: 2, replacement: "fast forward".to_string(), separator: Separator::Space }
    );
}

#[test]
fn process_message_forwards_key_presses() {
    let today = day(2024, 1, 1);
    let mut d = ExpansionData::new(table());
    let msg = HookMessage::KeyDown { key: KeyId::KeyB, vk_code: 0x42, scan_code: 0x30 };
    d.process_message(msg, Some("b".to_string()), today);
    assert_eq!(d.key_buffer(), "b");
    assert!(d.is_listening());
}

#[test]
fn handle_key_press_uses_todays_date() {
    let mut d = ExpansionData::new(table());
    for c in "btw".chars() {
        d.handle_key_press(key_for(c), Some(c.to_string()));
    }
    assert_eq!(
        d.handle_key_press(KeyId::Space, None),
        Action::Expand { delete_count: 3, replacement: "by the way".to_string(), separator: Separator::Space }
    );
    let mut e = ExpansionData::new(table());
    for c in "/days0".chars() {
        e.handle_key_press(key_for(c), Some(c.to_string()));
    }
    match e.handle_key_press(KeyId::Space, None) {
        Action::Expand { delete_count, replacement, .. } => {
            assert_eq!(delete_count, 6);
            assert_eq!(replacement.matches('/').count(), 2);
        }
        other => panic!("unexpected action {:?}", other),
    }
}
