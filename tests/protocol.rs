use text_expander::engine::{Action, Separator};
use text_expander::executor::{replay_keys, ExecStep, Executor, ExpansionError, KeyTap, CLIPBOARD_SETTLE_MS, DELETE_SETTLE_MS, PASTE_SETTLE_MS};
use text_expander::keys::{HookMessage, KeyId, MouseButton};

fn drain(e: &mut Executor, fail_at: Option<ExecStep>) -> Vec<ExecStep> {
    let mut seen = Vec::new();
    let mut last = Ok(());
    while let Some(s) = e.next_step(last) {
        seen.push(s);
        last = if Some(s) == fail_at { Err(ExpansionError::InjectionShortSend) } else { Ok(()) };
        if s == ExecStep::CloseGate {
            assert!(!e.gate_open());
        }
    }
    seen
}

fn expand() -> Action {
    Action::Expand { delete_count: 3, replacement: "by the way".to_string(), separator: Separator::Space }
}

#[test]
fn expansion_runs_every_step_in_order() {
    let mut e = Executor::new(&expand());
    assert_eq!(e.clipboard_text(), "by the way ");
    let steps = drain(&mut e, None);
    assert_eq!(
        steps,
        vec![
            ExecStep::CloseGate,
            ExecStep::DeleteChars(3),
            ExecStep::Settle(DELETE_SETTLE_MS),
            ExecStep::SaveClipboard,
            ExecStep::SetClipboard,
            ExecStep::Settle(CLIPBOARD_SETTLE_MS),
            ExecStep::Paste,
            ExecStep::Settle(PASTE_SETTLE_MS),
            ExecStep::RestoreClipboard,
            ExecStep::Replay,
            ExecStep::OpenGate,
        ]
    );
    assert!(e.gate_open());
    assert_eq!(e.outcome(), Ok(()));
    assert_eq!(e.next_step(Ok(())), None);
}

#[test]
fn failure_after_clipboard_saved_restores_and_reopens() {
    let mut e = Executor::new(&expand());
    let steps = drain(&mut e, Some(ExecStep::Paste));
    assert_eq!(
        steps,
        vec![
            ExecStep::CloseGate,
            ExecStep::DeleteChars(3),
            ExecStep::Settle(DELETE_SETTLE_MS),
            ExecStep::SaveClipboard,
            ExecStep::SetClipboard,
            ExecStep::Settle(CLIPBOARD_SETTLE_MS),
            ExecStep::Paste,
            ExecStep::RestoreClipboard,
            ExecStep::OpenGate,
        ]
    );
    assert!(e.gate_open());
    assert_eq!(e.outcome(), Err(ExpansionError::InjectionShortSend));
}

#[test]
fn failure_before_clipboard_saved_only_reopens() {
    let mut e = Executor::new(&expand());
    let steps = drain(&mut e, Some(ExecStep::DeleteChars(3)));
    assert_eq!(steps, vec![ExecStep::CloseGate, ExecStep::DeleteChars(3), ExecStep::OpenGate]);
    assert!(e.gate_open());
    assert_eq!(e.outcome(), Err(ExpansionError::InjectionShortSend));
}

#[test]
fn clipboard_failure_is_reported_first_error_kept() {
    let mut e = Executor::new(&expand());
    let mut last = Ok(());
    let mut n = 0;
    while let Some(s) = e.next_step(last) {
        n += 1;
        last = match s {
            ExecStep::SetClipboard => Err(ExpansionError::ClipboardUnavailable),
            ExecStep::RestoreClipboard => Err(ExpansionError::ClipboardUnavailable),
            ExecStep::OpenGate => Ok(()),
            _ => Ok(()),
        };
        assert!(n < 20);
    }
    assert!(e.gate_open());
    assert_eq!(e.outcome(), Err(ExpansionError::ClipboardUnavailable));
}

#[test]
fn gate_reopens_whichever_step_fails() {
    for fail in [
        ExecStep::CloseGate,
        ExecStep::DeleteChars(3),
        ExecStep::Settle(DELETE_SETTLE_MS),
        ExecStep::SaveClipboard,
        ExecStep::SetClipboard,
        ExecStep::Paste,
        ExecStep::RestoreClipboard,
        ExecStep::Replay,
        ExecStep::OpenGate,
    ] {
        let mut e = Executor::new(&expand());
        let steps = drain(&mut e, Some(fail));
        assert!(e.gate_open());
        assert_eq!(steps.last(), Some(&ExecStep::OpenGate));
    }
}

#[test]
fn clear_line_plan() {
    let mut e = Executor::new(&Action::ClearToLineEnd { delete_count: 2, separator: Separator::Return });
    let steps = drain(&mut e, None);
    assert_eq!(
        steps,
        vec![
            ExecStep::CloseGate,
            ExecStep::DeleteChars(2),
            ExecStep::Settle(DELETE_SETTLE_MS),
            ExecStep::SelectToLineEnd,
            ExecStep::TypeSeparator(Separator::Return),
            ExecStep::Replay,
            ExecStep::OpenGate,
        ]
    );
    assert!(e.gate_open());
}

#[test]
fn reinject_plan_types_separator_once() {
    let mut e = Executor::new(&Action::Reinject(Separator::Space));
    assert_eq!(drain(&mut e, None), vec![ExecStep::TypeSeparator(Separator::Space)]);
    assert!(e.gate_open());
    let mut n = Executor::new(&Action::Nothing);
    assert_eq!(drain(&mut n, None), Vec::<ExecStep>::new());
}

#[test]
fn pasted_text_gets_crlf_line_endings_and_separator() {
    let a = Action::Expand { delete_count: 4, replacement: "a\nb".to_string(), separator: Separator::Return };
    let e = Executor::new(&a);
    assert_eq!(e.clipboard_text(), "a\r\nb\r\n");
}

#[test]
fn replay_keeps_key_order_and_drops_clicks() {
    let pending = vec![
        HookMessage::KeyDown { key: KeyId::KeyA, vk_code: 0x41, scan_code: 0x1E },
        HookMessage::MouseDown(MouseButton::Left),
        HookMessage::KeyDown { key: KeyId::KeyB, vk_code: 0x42, scan_code: 0x30 },
        HookMessage::KeyDown { key: KeyId::Space, vk_code: 0x20, scan_code: 0x39 },
        HookMessage::MouseDown(MouseButton::Right),
    ];
    assert_eq!(
        replay_keys(&pending),
        vec![
            KeyTap { vk_code: 0x41, scan_code: 0x1E },
            KeyTap { vk_code: 0x42, scan_code: 0x30 },
            KeyTap { vk_code: 0x20, scan_code: 0x39 },
        ]
    );
    assert_eq!(replay_keys(&vec![HookMessage::MouseDown(MouseButton::Middle)]), vec![]);
}
