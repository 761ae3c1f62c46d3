use vstd::prelude::*;
use crate::date::{CivilDate, date_expansion, date_expansion_text, date_stamp, short_date_text, today};
use crate::keys::{HookMessage, KeyId, MouseButton};
use crate::table::{ExpansionFile, resolve};
use crate::text::{same_chars, string_of_chars, chars_of};

verus! {

/// Where the buffer stands in recognising a trigger.
#[derive(Debug, Clone, Copy, PartialEq, Eq, Structural)]
pub enum TypingState {
    Typing,
    Empty,
    NoMatch,
}

/// A word-separator key: it ends trigger recognition and is swallowed by
/// the capture layer, so it must be typed again unless a trigger fires.
#[derive(Debug, Clone, Copy, PartialEq, Eq, Structural)]
pub enum Separator {
    Space,
    Return,
}

/// What the processing thread does after an event.
#[derive(Debug, Clone, PartialEq, Eq)]
pub enum Action {
    /// Nothing is sent.
    Nothing,
    /// The swallowed separator is typed again.
    Reinject(Separator),
    /// The trigger's characters are deleted and the replacement, then the
    /// separator, is pasted.
    Expand { delete_count: usize, replacement: String, separator: Separator },
    /// The trigger's characters are deleted, the rest of the line is
    /// selected, and the separator is typed over the selection.
    ClearToLineEnd { delete_count: usize, separator: Separator },
}

pub enum ActionModel {
    Nothing,
    Reinject(Separator),
    Expand { delete_count: nat, replacement: Seq<char>, separator: Separator },
    ClearToLineEnd { delete_count: nat, separator: Separator },
}

impl View for Action {
    type V = ActionModel;

    open spec fn view(&self) -> ActionModel {
        match self {
            Action::Nothing => ActionModel::Nothing,
            Action::Reinject(s) => ActionModel::Reinject(*s),
            Action::Expand { delete_count, replacement, separator } => ActionModel::Expand {
                delete_count: *delete_count as nat,
                replacement: replacement@,
                separator: *separator,
            },
            Action::ClearToLineEnd { delete_count, separator } => ActionModel::ClearToLineEnd {
                delete_count: *delete_count as nat,
                separator: *separator,
            },
        }
    }
}

/// The edit buffer as the state machine sees it.
pub struct BufferModel {
    pub text: Seq<char>,
    pub cursor: int,
    pub state: TypingState,
    pub listening: bool,
}

pub open spec fn empty_model() -> BufferModel {
    BufferModel { text: Seq::empty(), cursor: 0, state: TypingState::Empty, listening: true }
}

/// `s` inserted into `text` at `at`.
pub open spec fn insert_at(text: Seq<char>, at: int, s: Seq<char>) -> Seq<char> {
    text.subrange(0, at) + s + text.subrange(at, text.len() as int)
}

pub open spec fn is_printable(k: KeyId) -> bool {
    match k {
        KeyId::KeyA | KeyId::KeyB | KeyId::KeyC | KeyId::KeyD | KeyId::KeyE | KeyId::KeyF
        | KeyId::KeyG | KeyId::KeyH | KeyId::KeyI | KeyId::KeyJ | KeyId::KeyK | KeyId::KeyL
        | KeyId::KeyM | KeyId::KeyN | KeyId::KeyO | KeyId::KeyP | KeyId::KeyQ | KeyId::KeyR
        | KeyId::KeyS | KeyId::KeyT | KeyId::KeyU | KeyId::KeyV | KeyId::KeyW | KeyId::KeyX
        | KeyId::KeyY | KeyId::KeyZ | KeyId::Num0 | KeyId::Num1 | KeyId::Num2 | KeyId::Num3
        | KeyId::Num4 | KeyId::Num5 | KeyId::Num6 | KeyId::Num7 | KeyId::Num8 | KeyId::Num9
        | KeyId::Minus | KeyId::Equal | KeyId::LeftBracket | KeyId::RightBracket | KeyId::Quote
        | KeyId::Comma | KeyId::Dot | KeyId::Slash | KeyId::SemiColon | KeyId::BackSlash
        | KeyId::BackQuote => true,
        _ => false,
    }
}

/// Keys after which the buffer no longer follows the caret.
pub open spec fn is_navigation(k: KeyId) -> bool {
    match k {
        KeyId::UpArrow | KeyId::DownArrow | KeyId::Escape | KeyId::Tab | KeyId::PageUp
        | KeyId::PageDown | KeyId::Home | KeyId::End => true,
        _ => false,
    }
}

pub open spec fn separator_of(k: KeyId) -> Option<Separator> {
    match k {
        KeyId::Space => Some(Separator::Space),
        KeyId::Return => Some(Separator::Return),
        _ => None,
    }
}

/// The special trigger that clears to the end of the line.
pub open spec fn clear_line_trigger() -> Seq<char> {
    seq!['f', 'f']
}

/// The fixed trigger that types today's date.
pub open spec fn date_stamp_trigger() -> Seq<char> {
    seq!['n', 'n']
}

/// The buffer and action after a separator.
pub open spec fn separator_step(
    m: BufferModel,
    sep: Separator,
    sensitive: Map<Seq<char>, Seq<char>>,
    insensitive: Map<Seq<char>, Seq<char>>,
    today: crate::date::DateModel,
) -> (BufferModel, ActionModel) {
    match m.state {
        TypingState::Empty => (m, ActionModel::Reinject(sep)),
        TypingState::NoMatch => (empty_model(), ActionModel::Reinject(sep)),
        TypingState::Typing => match resolve(sensitive, insensitive, m.text) {
            Some(v) => (
                empty_model(),
                ActionModel::Expand { delete_count: m.text.len(), replacement: v, separator: sep },
            ),
            None => if m.text == clear_line_trigger() {
                (empty_model(), ActionModel::ClearToLineEnd { delete_count: m.text.len(), separator: sep })
            } else if m.text == date_stamp_trigger() {
                (
                    empty_model(),
                    ActionModel::Expand {
                        delete_count: m.text.len(),
                        replacement: short_date_text(today).push(':'),
                        separator: sep,
                    },
                )
            } else {
                match date_expansion_text(m.text, today) {
                    Some(t) => (
                        empty_model(),
                        ActionModel::Expand { delete_count: m.text.len(), replacement: t, separator: sep },
                    ),
                    None => match sep {
                        Separator::Space => (
                            BufferModel {
                                text: insert_at(m.text, m.cursor, seq![' ']),
                                cursor: m.cursor + 1,
                                state: TypingState::NoMatch,
                                listening: m.listening,
                            },
                            ActionModel::Reinject(Separator::Space),
                        ),
                        Separator::Return => (empty_model(), ActionModel::Reinject(Separator::Return)),
                    },
                }
            },
        },
    }
}

/// The buffer and action after a key press; `ch` is the text the key
/// produces, if any.
pub open spec fn key_step(
    m: BufferModel,
    key: KeyId,
    ch: Option<Seq<char>>,
    sensitive: Map<Seq<char>, Seq<char>>,
    insensitive: Map<Seq<char>, Seq<char>>,
    today: crate::date::DateModel,
) -> (BufferModel, ActionModel) {
    match separator_of(key) {
        Some(sep) => separator_step(m, sep, sensitive, insensitive, today),
        None => if key == KeyId::Backspace {
            let popped = if m.cursor > 0 && m.text.len() > 0 {
                BufferModel { text: m.text.remove(m.cursor - 1), cursor: m.cursor - 1, ..m }
            } else {
                m
            };
            (BufferModel { state: TypingState::Typing, ..popped }, ActionModel::Nothing)
        } else if key == KeyId::LeftArrow {
            if m.cursor <= 1 {
                (empty_model(), ActionModel::Nothing)
            } else {
                (BufferModel { cursor: m.cursor - 1, ..m }, ActionModel::Nothing)
            }
        } else if key == KeyId::RightArrow {
            if m.cursor == m.text.len() {
                (empty_model(), ActionModel::Nothing)
            } else {
                (BufferModel { cursor: m.cursor + 1, ..m }, ActionModel::Nothing)
            }
        } else if is_navigation(key) {
            (empty_model(), ActionModel::Nothing)
        } else if is_printable(key) {
            match ch {
                Some(c) => (
                    BufferModel {
                        text: insert_at(m.text, m.cursor, c),
                        cursor: m.cursor + c.len(),
                        state: TypingState::Typing,
                        listening: m.listening,
                    },
                    ActionModel::Nothing,
                ),
                None => (BufferModel { state: TypingState::Typing, ..m }, ActionModel::Nothing),
            }
        } else {
            (m, ActionModel::Nothing)
        },
    }
}

pub open spec fn opt_view(ch: Option<String>) -> Option<Seq<char>> {
    match ch {
        Some(s) => Some(s@),
        None => None,
    }
}

fn is_printable_key(k: KeyId) -> (r: bool)
    ensures
        r == is_printable(k),
{
    match k {
        KeyId::KeyA | KeyId::KeyB | KeyId::KeyC | KeyId::KeyD | KeyId::KeyE | KeyId::KeyF
        | KeyId::KeyG | KeyId::KeyH | KeyId::KeyI | KeyId::KeyJ | KeyId::KeyK | KeyId::KeyL
        | KeyId::KeyM | KeyId::KeyN | KeyId::KeyO | KeyId::KeyP | KeyId::KeyQ | KeyId::KeyR
        | KeyId::KeyS | KeyId::KeyT | KeyId::KeyU | KeyId::KeyV | KeyId::KeyW | KeyId::KeyX
        | KeyId::KeyY | KeyId::KeyZ | KeyId::Num0 | KeyId::Num1 | KeyId::Num2 | KeyId::Num3
        | KeyId::Num4 | KeyId::Num5 | KeyId::Num6 | KeyId::Num7 | KeyId::Num8 | KeyId::Num9
        | KeyId::Minus | KeyId::Equal | KeyId::LeftBracket | KeyId::RightBracket | KeyId::Quote
        | KeyId::Comma | KeyId::Dot | KeyId::Slash | KeyId::SemiColon | KeyId::BackSlash
        | KeyId::BackQuote => true,
        _ => false,
    }
}

fn is_navigation_key(k: KeyId) -> (r: bool)
    ensures
        r == is_navigation(k),
{
    match k {
        KeyId::UpArrow | KeyId::DownArrow | KeyId::Escape | KeyId::Tab | KeyId::PageUp
        | KeyId::PageDown | KeyId::Home | KeyId::End => true,
        _ => false,
    }
}

/// The edit buffer of the processing thread, with the trigger table it
/// matches against.
pub struct ExpansionData {
    key_buffer: Vec<char>,
    expansion_table: ExpansionFile,
    cursor_position: usize,
    typing_state: TypingState,
    global_listening: bool,
}

impl View for ExpansionData {
    type V = BufferModel;

    closed spec fn view(&self) -> BufferModel {
        BufferModel {
            text: self.key_buffer@,
            cursor: self.cursor_position as int,
            state: self.typing_state,
            listening: self.global_listening,
        }
    }
}

impl ExpansionData {
    /// The cursor lies within the text, and the table is well formed.
    pub closed spec fn wf(&self) -> bool {
        self.cursor_position <= self.key_buffer@.len() && self.expansion_table.wf()
    }

    pub closed spec fn sensitive_map(&self) -> Map<Seq<char>, Seq<char>> {
        self.expansion_table.sensitive_map()
    }

    pub closed spec fn insensitive_map(&self) -> Map<Seq<char>, Seq<char>> {
        self.expansion_table.insensitive_map()
    }

    /// The cursor invariant, in terms of the view.
    pub proof fn lemma_cursor_in_text(&self)
        requires
            self.wf(),
        ensures
            0 <= self@.cursor <= self@.text.len(),
    {
    }

    /// The buffered text.
    pub fn key_buffer(&self) -> (r: String)
        ensures
            r@ == self@.text,
    {
        string_of_chars(&self.key_buffer)
    }

    pub fn cursor_position(&self) -> (r: usize)
        ensures
            r as int == self@.cursor,
    {
        self.cursor_position
    }

    pub fn typing_state(&self) -> (r: TypingState)
        ensures
            r == self@.state,
    {
        self.typing_state
    }

    pub fn is_listening(&self) -> (r: bool)
        ensures
            r == self@.listening,
    {
        self.global_listening
    }

    /// An empty buffer over the given table, listening.
    pub fn new(expansion_table: ExpansionFile) -> (r: ExpansionData)
        requires
            expansion_table.wf(),
        ensures
            r.wf(),
            r@ == empty_model(),
            r.sensitive_map() == expansion_table.sensitive_map(),
            r.insensitive_map() == expansion_table.insensitive_map(),
    {
        let r = ExpansionData {
            key_buffer: Vec::new(),
            expansion_table,
            cursor_position: 0,
            typing_state: TypingState::Empty,
            global_listening: true,
        };
        assert(r@.text =~= Seq::<char>::empty());
        r
    }

    /// Drops the buffered text, and the cursor with it.
    pub fn clear_buffer(&mut self)
        requires
            old(self).wf(),
        ensures
            final(self).wf(),
            final(self)@ == (BufferModel { text: Seq::empty(), cursor: 0, ..old(self)@ }),
            final(self).sensitive_map() == old(self).sensitive_map(),
            final(self).insensitive_map() == old(self).insensitive_map(),
    {
        self.key_buffer.clear();
        self.cursor_position = 0;
        assert(self@.text =~= Seq::<char>::empty());
    }

    /// Inserts the characters of `c` at the cursor and moves the cursor
    /// past them.
    pub fn push_to_buffer(&mut self, c: &str)
        requires
            old(self).wf(),
        ensures
            final(self).wf(),
            final(self)@ == (BufferModel {
                text: insert_at(old(self)@.text, old(self)@.cursor, c@),
                cursor: old(self)@.cursor + c@.len(),
                ..old(self)@
            }),
            final(self).sensitive_map() == old(self).sensitive_map(),
            final(self).insensitive_map() == old(self).insensitive_map(),
    {
        let chars = chars_of(c);
        let ghost text0 = self.key_buffer@;
        let ghost cur0 = self.cursor_position as int;
        let mut i: usize = 0;
        while i < chars.len()
            invariant
                chars@ == c@,
                i <= chars@.len(),
                0 <= cur0 <= text0.len(),
                self.cursor_position as int == cur0 + i,
                self.key_buffer@ == insert_at(text0, cur0, chars@.subrange(0, i as int)),
                self.expansion_table == old(self).expansion_table,
                self.typing_state == old(self).typing_state,
                self.global_listening == old(self).global_listening,
            decreases chars.len() - i,
        {
            let ghost pre = chars@.subrange(0, i as int);
            let ghost before = self.key_buffer@;
            self.key_buffer.insert(self.cursor_position, chars[i]);
            assert(chars@.subrange(0, i + 1) =~= pre.push(chars@[i as int]));
            assert(self.key_buffer@ == before.insert(cur0 + i, chars@[i as int]));
            assert(before.subrange(0, cur0 + i) =~= text0.subrange(0, cur0) + pre);
            assert(before.subrange(cur0 + i, before.len() as int) =~= text0.subrange(cur0, text0.len() as int));
            assert(self.key_buffer@ =~= insert_at(text0, cur0, pre.push(chars@[i as int])));
            let len: usize = self.key_buffer.len();
            assert(self.cursor_position < len);
            self.cursor_position = self.cursor_position + 1;
            i = i + 1;
        }
        assert(chars@.subrange(0, chars@.len() as int) =~= c@);
    }

    /// Removes the character before the cursor, if there is one.
    pub fn pop_from_buffer(&mut self)
        requires
            old(self).wf(),
        ensures
            final(self).wf(),
            final(self)@ == (if old(self)@.cursor > 0 && old(self)@.text.len() > 0 {
                BufferModel {
                    text: old(self)@.text.remove(old(self)@.cursor - 1),
                    cursor: old(self)@.cursor - 1,
                    ..old(self)@
                }
            } else {
                old(self)@
            }),
            final(self).sensitive_map() == old(self).sensitive_map(),
            final(self).insensitive_map() == old(self).insensitive_map(),
    {
        if self.cursor_position > 0 && self.key_buffer.len() > 0 {
            let remove_index = self.cursor_position - 1;
            self.key_buffer.remove(remove_index);
            self.cursor_position = self.cursor_position - 1;
        }
    }

    pub fn set_typing_state(&mut self, state: TypingState)
        requires
            old(self).wf(),
        ensures
            final(self).wf(),
            final(self)@ == (BufferModel { state, ..old(self)@ }),
            final(self).sensitive_map() == old(self).sensitive_map(),
            final(self).insensitive_map() == old(self).insensitive_map(),
    {
        self.typing_state = state;
    }

    /// Back to an empty buffer in state `Empty`, listening.
    pub fn reset(&mut self)
        requires
            old(self).wf(),
        ensures
            final(self).wf(),
            final(self)@ == empty_model(),
            final(self).sensitive_map() == old(self).sensitive_map(),
            final(self).insensitive_map() == old(self).insensitive_map(),
    {
        self.clear_buffer();
        self.typing_state = TypingState::Empty;
        self.cursor_position = 0;
        self.global_listening = true;
    }

    /// Moves the cursor one character left; at the start of the buffer the
    /// buffer no longer follows the caret and is reset.
    pub fn decrement_cursor_position(&mut self)
        requires
            old(self).wf(),
        ensures
            final(self).wf(),
            final(self)@ == (if old(self)@.cursor <= 1 {
                empty_model()
            } else {
                BufferModel { cursor: old(self)@.cursor - 1, ..old(self)@ }
            }),
            final(self).sensitive_map() == old(self).sensitive_map(),
            final(self).insensitive_map() == old(self).insensitive_map(),
    {
        if self.cursor_position > 0 {
            self.cursor_position = self.cursor_position - 1;
        }
        if self.cursor_position == 0 {
            self.reset();
        }
    }

    /// Moves the cursor one character right.
    pub fn increment_cursor_position(&mut self)
        requires
            old(self).wf(),
            old(self)@.cursor < old(self)@.text.len(),
        ensures
            final(self).wf(),
            final(self)@ == (BufferModel { cursor: old(self)@.cursor + 1, ..old(self)@ }),
            final(self).sensitive_map() == old(self).sensitive_map(),
            final(self).insensitive_map() == old(self).insensitive_map(),
    {
        if self.cursor_position < self.key_buffer.len() {
            self.cursor_position = self.cursor_position + 1;
        }
    }

    /// The trigger length and replacement when the buffer is exactly a
    /// trigger of the table.
    pub fn check_for_completion(&self) -> (r: Option<(usize, String)>)
        requires
            self.wf(),
        ensures
            match resolve(self.sensitive_map(), self.insensitive_map(), self@.text) {
                Some(v) => r matches Some((n, s)) && n == self@.text.len() && s@ == v,
                None => r is None,
            },
    {
        match self.expansion_table.lookup(&self.key_buffer) {
            Some(v) => Some((self.key_buffer.len(), v)),
            None => None,
        }
    }

    fn on_separator(&mut self, sep: Separator, today: CivilDate) -> (a: Action)
        requires
            old(self).wf(),
            today.wf(),
        ensures
            final(self).wf(),
            (final(self)@, a@) == separator_step(
                old(self)@,
                sep,
                old(self).sensitive_map(),
                old(self).insensitive_map(),
                today.view(),
            ),
            final(self).sensitive_map() == old(self).sensitive_map(),
            final(self).insensitive_map() == old(self).insensitive_map(),
    {
        match self.typing_state {
            TypingState::Empty => Action::Reinject(sep),
            TypingState::NoMatch => {
                self.reset();
                Action::Reinject(sep)
            },
            TypingState::Typing => {
                if let Some((trigger_length, completion)) = self.check_for_completion() {
                    self.reset();
                    return Action::Expand { delete_count: trigger_length, replacement: completion, separator: sep };
                }
                let count = self.key_buffer.len();
                let clear_line = vec!['f', 'f'];
                assert(clear_line@ =~= clear_line_trigger());
                if same_chars(&self.key_buffer, &clear_line) {
                    self.reset();
                    return Action::ClearToLineEnd { delete_count: count, separator: sep };
                }
                let stamp = vec!['n', 'n'];
                assert(stamp@ =~= date_stamp_trigger());
                if same_chars(&self.key_buffer, &stamp) {
                    let text = date_stamp(today);
                    self.reset();
                    return Action::Expand { delete_count: count, replacement: string_of_chars(&text), separator: sep };
                }
                if let Some(text) = date_expansion(&self.key_buffer, today) {
                    self.reset();
                    return Action::Expand { delete_count: count, replacement: string_of_chars(&text), separator: sep };
                }
                match sep {
                    Separator::Space => {
                        self.push_to_buffer(" ");
                        proof {
                            reveal_strlit(" ");
                        }
                        assert(" "@ =~= seq![' ']);
                        self.set_typing_state(TypingState::NoMatch);
                        Action::Reinject(Separator::Space)
                    },
                    Separator::Return => {
                        self.reset();
                        Action::Reinject(Separator::Return)
                    },
                }
            },
        }
    }

    /// Processes one key press: `ch` is the text the key produces under the
    /// current modifier state, if any, and `today` the date that date
    /// triggers count from.
    pub fn process_key(&mut self, key: KeyId, ch: Option<String>, today: CivilDate) -> (a: Action)
        requires
            old(self).wf(),
            today.wf(),
        ensures
            final(self).wf(),
            (final(self)@, a@) == key_step(
                old(self)@,
                key,
                opt_view(ch),
                old(self).sensitive_map(),
                old(self).insensitive_map(),
                today.view(),
            ),
            final(self).sensitive_map() == old(self).sensitive_map(),
            final(self).insensitive_map() == old(self).insensitive_map(),
    {
        match key {
            KeyId::Space => self.on_separator(Separator::Space, today),
            KeyId::Return => self.on_separator(Separator::Return, today),
            KeyId::Backspace => {
                self.pop_from_buffer();
                self.set_typing_state(TypingState::Typing);
                Action::Nothing
            },
            KeyId::LeftArrow => {
                self.decrement_cursor_position();
                Action::Nothing
            },
            KeyId::RightArrow => {
                if self.key_buffer.len() == self.cursor_position {
                    self.reset();
                } else {
                    self.increment_cursor_position();
                }
                Action::Nothing
            },
            _ => {
                if is_navigation_key(key) {
                    self.reset();
                } else if is_printable_key(key) {
                    self.set_typing_state(TypingState::Typing);
                    if let Some(c) = ch {
                        self.push_to_buffer(c.as_str());
                    }
                }
                Action::Nothing
            },
        }
    }

    /// Processes one key press, with date triggers counted from today's
    /// local date, whatever it is.
    pub fn handle_key_press(&mut self, key: KeyId, ch: Option<String>) -> (a: Action)
        requires
            old(self).wf(),
        ensures
            final(self).wf(),
            exists|t: CivilDate|
                t.wf() && (final(self)@, a@) == #[trigger] key_step(
                    old(self)@,
                    key,
                    opt_view(ch),
                    old(self).sensitive_map(),
                    old(self).insensitive_map(),
                    t.view(),
                ),
            final(self).sensitive_map() == old(self).sensitive_map(),
            final(self).insensitive_map() == old(self).insensitive_map(),
    {
        let t = today();
        self.process_key(key, ch, t)
    }

    /// A mouse click: the caret may have moved anywhere, so the buffer is
    /// reset.
    pub fn handle_mouse_press(&mut self, button: MouseButton)
        requires
            old(self).wf(),
        ensures
            final(self).wf(),
            final(self)@ == empty_model(),
            final(self).sensitive_map() == old(self).sensitive_map(),
            final(self).insensitive_map() == old(self).insensitive_map(),
    {
        match button {
            MouseButton::Left | MouseButton::Right | MouseButton::Middle => self.reset(),
        }
    }

    /// Processes one event from the capture layer: a key press with the text
    /// it produces, if any, or a mouse click.
    pub fn process_message(&mut self, msg: HookMessage, ch: Option<String>, today: CivilDate) -> (a: Action)
        requires
            old(self).wf(),
            today.wf(),
        ensures
            final(self).wf(),
            match msg {
                HookMessage::KeyDown { key, .. } => (final(self)@, a@) == key_step(
                    old(self)@,
                    key,
                    opt_view(ch),
                    old(self).sensitive_map(),
                    old(self).insensitive_map(),
                    today.view(),
                ),
                HookMessage::MouseDown(_) => final(self)@ == empty_model() && a == Action::Nothing,
            },
            final(self).sensitive_map() == old(self).sensitive_map(),
            final(self).insensitive_map() == old(self).insensitive_map(),
    {
        match msg {
            HookMessage::KeyDown { key, .. } => self.process_key(key, ch, today),
            HookMessage::MouseDown(button) => {
                self.handle_mouse_press(button);
                Action::Nothing
            },
        }
    }
}

/// The text typed by a run of key presses, each with the text it produced.
pub open spec fn typed_text(events: Seq<(KeyId, Seq<char>)>) -> Seq<char>
    decreases events.len(),
{
    if events.len() == 0 {
        Seq::empty()
    } else {
        typed_text(events.drop_last()) + events.last().1
    }
}

/// The buffer after a run of key presses, each with the text it produced.
pub open spec fn after_typing(
    m: BufferModel,
    events: Seq<(KeyId, Seq<char>)>,
    sensitive: Map<Seq<char>, Seq<char>>,
    insensitive: Map<Seq<char>, Seq<char>>,
    today: crate::date::DateModel,
) -> BufferModel
    decreases events.len(),
{
    if events.len() == 0 {
        m
    } else {
        key_step(
            after_typing(m, events.drop_last(), sensitive, insensitive, today),
            events.last().0,
            Some(events.last().1),
            sensitive,
            insensitive,
            today,
        ).0
    }
}

/// The buffer after any run of events, each a key with the text it
/// produced, if any.
pub open spec fn after_events(
    m: BufferModel,
    events: Seq<(KeyId, Option<Seq<char>>)>,
    sensitive: Map<Seq<char>, Seq<char>>,
    insensitive: Map<Seq<char>, Seq<char>>,
    today: crate::date::DateModel,
) -> BufferModel
    decreases events.len(),
{
    if events.len() == 0 {
        m
    } else {
        key_step(
            after_events(m, events.drop_last(), sensitive, insensitive, today),
            events.last().0,
            events.last().1,
            sensitive,
            insensitive,
            today,
        ).0
    }
}

proof fn lemma_typing_from_empty(
    events: Seq<(KeyId, Seq<char>)>,
    sensitive: Map<Seq<char>, Seq<char>>,
    insensitive: Map<Seq<char>, Seq<char>>,
    today: crate::date::DateModel,
)
    requires
        events.len() > 0,
        forall|i: int| 0 <= i < events.len() ==> is_printable(#[trigger] events[i].0),
    ensures
        after_typing(empty_model(), events, sensitive, insensitive, today) == (BufferModel {
            text: typed_text(events),
            cursor: typed_text(events).len() as int,
            state: TypingState::Typing,
            listening: true,
        }),
    decreases events.len(),
{
    let last = events.last();
    assert(is_printable(events[events.len() - 1].0));
    if events.len() == 1 {
        assert(events.drop_last() =~= Seq::<(KeyId, Seq<char>)>::empty());
        assert(typed_text(events.drop_last()) =~= Seq::<char>::empty());
        assert(insert_at(Seq::<char>::empty(), 0, last.1) =~= last.1);
        assert(typed_text(events) =~= last.1);
    } else {
        let prev = events.drop_last();
        assert forall|i: int| 0 <= i < prev.len() implies is_printable(#[trigger] prev[i].0) by {
            assert(prev[i] == events[i]);
        }
        lemma_typing_from_empty(prev, sensitive, insensitive, today);
        let t = typed_text(prev);
        assert(insert_at(t, t.len() as int, last.1) =~= t + last.1);
    }
}

/// Typing the characters of a configured trigger from an empty buffer and
/// then a separator expands it: the deletion count is the trigger's length,
/// the replacement is the configured one, and the buffer is empty again.
pub proof fn lemma_trigger_expands(
    events: Seq<(KeyId, Seq<char>)>,
    separator: KeyId,
    ch: Option<Seq<char>>,
    sensitive: Map<Seq<char>, Seq<char>>,
    insensitive: Map<Seq<char>, Seq<char>>,
    today: crate::date::DateModel,
)
    requires
        events.len() > 0,
        forall|i: int| 0 <= i < events.len() ==> is_printable(#[trigger] events[i].0),
        separator_of(separator) is Some,
        resolve(sensitive, insensitive, typed_text(events)) is Some,
    ensures
        key_step(
            after_typing(empty_model(), events, sensitive, insensitive, today),
            separator,
            ch,
            sensitive,
            insensitive,
            today,
        ) == (
            empty_model(),
            ActionModel::Expand {
                delete_count: typed_text(events).len(),
                replacement: resolve(sensitive, insensitive, typed_text(events))->0,
                separator: separator_of(separator)->0,
            },
        ),
{
    lemma_typing_from_empty(events, sensitive, insensitive, today);
}

/// The cursor stays within the text after any single event.
pub proof fn lemma_cursor_stays_in_text(
    m: BufferModel,
    key: KeyId,
    ch: Option<Seq<char>>,
    sensitive: Map<Seq<char>, Seq<char>>,
    insensitive: Map<Seq<char>, Seq<char>>,
    today: crate::date::DateModel,
)
    requires
        0 <= m.cursor <= m.text.len(),
    ensures
        0 <= key_step(m, key, ch, sensitive, insensitive, today).0.cursor <= key_step(
            m,
            key,
            ch,
            sensitive,
            insensitive,
            today,
        ).0.text.len(),
{
}

/// The cursor stays within the text after any run of printable keys,
/// backspaces, arrows and other keys.
pub proof fn lemma_cursor_stays_in_text_over_events(
    m: BufferModel,
    events: Seq<(KeyId, Option<Seq<char>>)>,
    sensitive: Map<Seq<char>, Seq<char>>,
    insensitive: Map<Seq<char>, Seq<char>>,
    today: crate::date::DateModel,
)
    requires
        0 <= m.cursor <= m.text.len(),
    ensures
        0 <= after_events(m, events, sensitive, insensitive, today).cursor <= after_events(
            m,
            events,
            sensitive,
            insensitive,
            today,
        ).text.len(),
    decreases events.len(),
{
    if events.len() > 0 {
        lemma_cursor_stays_in_text_over_events(m, events.drop_last(), sensitive, insensitive, today);
        lemma_cursor_stays_in_text(
            after_events(m, events.drop_last(), sensitive, insensitive, today),
            events.last().0,
            events.last().1,
            sensitive,
            insensitive,
            today,
        );
    }
}

/// A separator that completes no trigger, special trigger or date trigger
/// is typed again, once: the action is to re-inject it, whose plan is that
/// single key.
pub proof fn lemma_unmatched_separator_reinjected(
    m: BufferModel,
    separator: KeyId,
    ch: Option<Seq<char>>,
    sensitive: Map<Seq<char>, Seq<char>>,
    insensitive: Map<Seq<char>, Seq<char>>,
    today: crate::date::DateModel,
)
    requires
        separator_of(separator) is Some,
        resolve(sensitive, insensitive, m.text) is None,
        m.text != clear_line_trigger(),
        m.text != date_stamp_trigger(),
        date_expansion_text(m.text, today) is None,
    ensures
        key_step(m, separator, ch, sensitive, insensitive, today).1 == ActionModel::Reinject(
            separator_of(separator)->0,
        ),
        crate::executor::plan_of(key_step(m, separator, ch, sensitive, insensitive, today).1) == seq![
            crate::executor::ExecStep::TypeSeparator(separator_of(separator)->0),
        ],
{
}

} // verus!
