use vstd::prelude::*;
use crate::engine::{Action, ActionModel, Separator};
use crate::keys::HookMessage;
use crate::text::{crlf_of, normalize_line_endings, push_char};

verus! {

/// Milliseconds allowed for the target application to take the deletions.
pub const DELETE_SETTLE_MS: u64 = 20;

/// Milliseconds allowed for a clipboard write to become visible.
pub const CLIPBOARD_SETTLE_MS: u64 = 50;

/// Milliseconds allowed for the target application to read the clipboard
/// for a paste, before the clipboard is restored.
pub const PASTE_SETTLE_MS: u64 = 100;

/// The ways an expansion, or the capture around it, can fail.
#[derive(Debug, Clone, Copy, PartialEq, Eq, Structural)]
pub enum ExpansionError {
    /// The keyboard or mouse observer could not be installed.
    HookInstallFailure,
    /// Fewer synthetic events were accepted than were sent.
    InjectionShortSend,
    /// The clipboard could not be read or written.
    ClipboardUnavailable,
    /// The trigger configuration could not be loaded.
    ConfigLoadFailure,
}

/// One operation of an expansion, carried out in order by the caller.
#[derive(Debug, Clone, Copy, PartialEq, Eq, Structural)]
pub enum ExecStep {
    /// Stop real key presses from reaching the buffer or the application.
    CloseGate,
    /// Send this many deletions.
    DeleteChars(usize),
    /// Wait this many milliseconds.
    Settle(u64),
    /// Keep the clipboard's current text.
    SaveClipboard,
    /// Put the expansion's clipboard text on the clipboard.
    SetClipboard,
    /// Send the paste chord.
    Paste,
    /// Put the kept text back on the clipboard.
    RestoreClipboard,
    /// Select from the caret to the end of the line.
    SelectToLineEnd,
    /// Type a separator.
    TypeSeparator(Separator),
    /// Type again, in order, the keys queued while listening was off.
    Replay,
    /// Let real key presses through again.
    OpenGate,
}

pub open spec fn separator_char(sep: Separator) -> char {
    match sep {
        Separator::Space => ' ',
        Separator::Return => '\n',
    }
}

/// The steps that carry out an action.
pub open spec fn plan_of(a: ActionModel) -> Seq<ExecStep> {
    match a {
        ActionModel::Nothing => Seq::empty(),
        ActionModel::Reinject(sep) => seq![ExecStep::TypeSeparator(sep)],
        ActionModel::Expand { delete_count, replacement, separator } => seq![
            ExecStep::CloseGate,
            ExecStep::DeleteChars(delete_count as usize),
            ExecStep::Settle(DELETE_SETTLE_MS),
            ExecStep::SaveClipboard,
            ExecStep::SetClipboard,
            ExecStep::Settle(CLIPBOARD_SETTLE_MS),
            ExecStep::Paste,
            ExecStep::Settle(PASTE_SETTLE_MS),
            ExecStep::RestoreClipboard,
            ExecStep::Replay,
            ExecStep::OpenGate,
        ],
        ActionModel::ClearToLineEnd { delete_count, separator } => seq![
            ExecStep::CloseGate,
            ExecStep::DeleteChars(delete_count as usize),
            ExecStep::Settle(DELETE_SETTLE_MS),
            ExecStep::SelectToLineEnd,
            ExecStep::TypeSeparator(separator),
            ExecStep::Replay,
            ExecStep::OpenGate,
        ],
    }
}

/// The text that an action pastes: the replacement and then the separator,
/// with line feeds written as carriage return and line feed.
pub open spec fn clipboard_text_of(a: ActionModel) -> Seq<char> {
    match a {
        ActionModel::Expand { replacement, separator, .. } => crlf_of(
            replacement.push(separator_char(separator)),
        ),
        _ => Seq::empty(),
    }
}

/// The executor's progress through a plan.
pub struct ExecModel {
    pub plan: Seq<ExecStep>,
    pub next: int,
    pub error: Option<ExpansionError>,
    pub gate_open: bool,
    pub clipboard_saved: bool,
}

pub open spec fn start_of(plan: Seq<ExecStep>) -> ExecModel {
    ExecModel { plan, next: 0, error: None, gate_open: true, clipboard_saved: false }
}

/// Steps that still run after a failure, so that no failure leaves
/// listening off or the clipboard overwritten.
pub open spec fn restores(s: ExecStep, clipboard_saved: bool) -> bool {
    s == ExecStep::OpenGate || (s == ExecStep::RestoreClipboard && clipboard_saved)
}

/// The index of the next step to run from `from` on; the plan's length
/// when none is left.
pub open spec fn next_index(plan: Seq<ExecStep>, from: int, failed: bool, clipboard_saved: bool) -> int
    decreases plan.len() - from,
{
    if from >= plan.len() {
        plan.len() as int
    } else if !failed || restores(plan[from], clipboard_saved) {
        from
    } else {
        next_index(plan, from + 1, failed, clipboard_saved)
    }
}

/// The executor after the previous step ended with `last`, and the step
/// that it hands out next.
pub open spec fn advance(e: ExecModel, last: Result<(), ExpansionError>) -> (ExecModel, Option<ExecStep>) {
    let error = match e.error {
        Some(x) => Some(x),
        None => match last {
            Ok(()) => None,
            Err(x) => Some(x),
        },
    };
    let j = next_index(e.plan, e.next, error is Some, e.clipboard_saved);
    if j >= e.plan.len() {
        (ExecModel { next: e.plan.len() as int, error, ..e }, None)
    } else {
        let s = e.plan[j];
        (
            ExecModel {
                plan: e.plan,
                next: j + 1,
                error,
                gate_open: if s == ExecStep::CloseGate {
                    false
                } else if s == ExecStep::OpenGate {
                    true
                } else {
                    e.gate_open
                },
                clipboard_saved: if s == ExecStep::SaveClipboard {
                    true
                } else if s == ExecStep::RestoreClipboard {
                    false
                } else {
                    e.clipboard_saved
                },
            },
            Some(s),
        )
    }
}

/// The executor after handing out one step for each outcome in turn.
pub open spec fn run(e: ExecModel, outcomes: Seq<Result<(), ExpansionError>>) -> ExecModel
    decreases outcomes.len(),
{
    if outcomes.len() == 0 {
        e
    } else {
        run(advance(e, outcomes[0]).0, outcomes.skip(1))
    }
}

/// Carries out an action step by step: the caller performs each step that
/// `next_step` hands out and reports how it went with the next call.
pub struct Executor {
    plan: Vec<ExecStep>,
    next: usize,
    error: Option<ExpansionError>,
    gate_open: bool,
    clipboard_saved: bool,
    clipboard_text: String,
}

impl View for Executor {
    type V = ExecModel;

    closed spec fn view(&self) -> ExecModel {
        ExecModel {
            plan: self.plan@,
            next: self.next as int,
            error: self.error,
            gate_open: self.gate_open,
            clipboard_saved: self.clipboard_saved,
        }
    }
}

impl Executor {
    pub closed spec fn wf(&self) -> bool {
        self.next <= self.plan@.len()
    }

    pub closed spec fn clipboard_text_view(&self) -> Seq<char> {
        self.clipboard_text@
    }

    /// An executor at the start of the plan for `action`.
    pub fn new(action: &Action) -> (r: Executor)
        ensures
            r.wf(),
            r@ == start_of(plan_of(action@)),
            r.clipboard_text_view() == clipboard_text_of(action@),
    {
        let (plan, text) = match action {
            Action::Nothing => (Vec::new(), String::new()),
            Action::Reinject(sep) => (vec![ExecStep::TypeSeparator(*sep)], String::new()),
            Action::Expand { delete_count, replacement, separator } => {
                let mut pasted = replacement.clone();
                let c = match separator {
                    Separator::Space => ' ',
                    Separator::Return => '\n',
                };
                push_char(&mut pasted, c);
                (
                    vec![
                        ExecStep::CloseGate,
                        ExecStep::DeleteChars(*delete_count),
                        ExecStep::Settle(DELETE_SETTLE_MS),
                        ExecStep::SaveClipboard,
                        ExecStep::SetClipboard,
                        ExecStep::Settle(CLIPBOARD_SETTLE_MS),
                        ExecStep::Paste,
                        ExecStep::Settle(PASTE_SETTLE_MS),
                        ExecStep::RestoreClipboard,
                        ExecStep::Replay,
                        ExecStep::OpenGate,
                    ],
                    normalize_line_endings(pasted.as_str()),
                )
            },
            Action::ClearToLineEnd { delete_count, separator } => (
                vec![
                    ExecStep::CloseGate,
                    ExecStep::DeleteChars(*delete_count),
                    ExecStep::Settle(DELETE_SETTLE_MS),
                    ExecStep::SelectToLineEnd,
                    ExecStep::TypeSeparator(*separator),
                    ExecStep::Replay,
                    ExecStep::OpenGate,
                ],
                String::new(),
            ),
        };
        let r = Executor {
            plan,
            next: 0,
            error: None,
            gate_open: true,
            clipboard_saved: false,
            clipboard_text: text,
        };
        assert(r@.plan =~= plan_of(action@));
        assert(r.clipboard_text_view() =~= clipboard_text_of(action@));
        r
    }

    /// The text that the `SetClipboard` step puts on the clipboard.
    pub fn clipboard_text(&self) -> (r: &String)
        ensures
            r@ == self.clipboard_text_view(),
    {
        &self.clipboard_text
    }

    /// Whether real key presses may pass.
    pub fn gate_open(&self) -> (r: bool)
        ensures
            r == self@.gate_open,
    {
        self.gate_open
    }

    /// How the expansion went: the first failure reported, if any.
    pub fn outcome(&self) -> (r: Result<(), ExpansionError>)
        ensures
            match self@.error {
                Some(x) => r == Err::<(), ExpansionError>(x),
                None => r is Ok,
            },
    {
        match self.error {
            Some(x) => Err(x),
            None => Ok(()),
        }
    }

    /// Records how the previous step went (`Ok(())` before the first) and
    /// hands out the next step to perform; after a failure only the steps
    /// that restore the clipboard and turn listening back on are handed out.
    /// `None` once the plan is done.
    pub fn next_step(&mut self, last: Result<(), ExpansionError>) -> (r: Option<ExecStep>)
        requires
            old(self).wf(),
        ensures
            final(self).wf(),
            (final(self)@, r) == advance(old(self)@, last),
            final(self).clipboard_text_view() == old(self).clipboard_text_view(),
    {
        if self.error.is_none() {
            if let Err(x) = last {
                self.error = Some(x);
            }
        }
        let failed = self.error.is_some();
        let mut j: usize = self.next;
        while j < self.plan.len() && failed && !(self.plan[j] == ExecStep::OpenGate || (self.plan[j]
            == ExecStep::RestoreClipboard && self.clipboard_saved))
            invariant
                self.next <= j <= self.plan@.len(),
                failed == (self.error is Some),
                next_index(self.plan@, self.next as int, failed, self.clipboard_saved)
                    == next_index(self.plan@, j as int, failed, self.clipboard_saved),
            decreases self.plan.len() - j,
        {
            j = j + 1;
        }
        if j >= self.plan.len() {
            self.next = self.plan.len();
            return None;
        }
        let s = self.plan[j];
        self.next = j + 1;
        if s == ExecStep::CloseGate {
            self.gate_open = false;
        } else if s == ExecStep::OpenGate {
            self.gate_open = true;
        }
        if s == ExecStep::SaveClipboard {
            self.clipboard_saved = true;
        } else if s == ExecStep::RestoreClipboard {
            self.clipboard_saved = false;
        }
        Some(s)
    }
}

/// A key to type again: its virtual-key and scan codes.
#[derive(Debug, Clone, Copy, PartialEq, Eq, Structural)]
pub struct KeyTap {
    pub vk_code: u32,
    pub scan_code: u32,
}

/// The key presses among queued events, in order; mouse events are left out.
pub open spec fn replay_of(msgs: Seq<HookMessage>) -> Seq<KeyTap>
    decreases msgs.len(),
{
    if msgs.len() == 0 {
        Seq::empty()
    } else {
        match msgs.last() {
            HookMessage::KeyDown { vk_code, scan_code, .. } => replay_of(msgs.drop_last()).push(
                KeyTap { vk_code, scan_code },
            ),
            HookMessage::MouseDown(_) => replay_of(msgs.drop_last()),
        }
    }
}

/// The keys to type again for the events queued while listening was off.
pub fn replay_keys(pending: &Vec<HookMessage>) -> (r: Vec<KeyTap>)
    ensures
        r@ == replay_of(pending@),
{
    let mut out: Vec<KeyTap> = Vec::new();
    let mut i: usize = 0;
    while i < pending.len()
        invariant
            i <= pending@.len(),
            out@ == replay_of(pending@.subrange(0, i as int)),
        decreases pending.len() - i,
    {
        assert(pending@.subrange(0, i + 1).drop_last() =~= pending@.subrange(0, i as int));
        match pending[i] {
            HookMessage::KeyDown { vk_code, scan_code, .. } => {
                out.push(KeyTap { vk_code, scan_code });
            },
            HookMessage::MouseDown(_) => {},
        }
        i = i + 1;
    }
    assert(pending@.subrange(0, pending@.len() as int) =~= pending@);
    out
}

/// A plan that cannot leave listening off: it ends by turning it on,
/// or never turns it off.
pub open spec fn gate_safe(plan: Seq<ExecStep>) -> bool {
    (plan.len() > 0 && plan.last() == ExecStep::OpenGate) || (forall|i: int|
        0 <= i < plan.len() ==> plan[i] != ExecStep::CloseGate)
}

spec fn exec_inv(e: ExecModel) -> bool {
    &&& 0 <= e.next <= e.plan.len()
    &&& gate_safe(e.plan)
    &&& if e.plan.len() > 0 && e.plan.last() == ExecStep::OpenGate {
        e.next == e.plan.len() ==> e.gate_open
    } else {
        e.gate_open
    }
}

proof fn lemma_next_index_bounds(plan: Seq<ExecStep>, from: int, failed: bool, saved: bool)
    requires
        0 <= from <= plan.len(),
    ensures
        from <= next_index(plan, from, failed, saved) <= plan.len(),
        next_index(plan, from, failed, saved) < plan.len() ==> (!failed || restores(
            plan[next_index(plan, from, failed, saved)],
            saved,
        )),
        (plan.len() > 0 && plan.last() == ExecStep::OpenGate && from < plan.len()) ==> next_index(
            plan,
            from,
            failed,
            saved,
        ) < plan.len(),
    decreases plan.len() - from,
{
    if from < plan.len() && failed && !restores(plan[from], saved) {
        lemma_next_index_bounds(plan, from + 1, failed, saved);
    }
}

proof fn lemma_advance_keeps_gate_safe(e: ExecModel, last: Result<(), ExpansionError>)
    requires
        exec_inv(e),
    ensures
        exec_inv(advance(e, last).0),
        advance(e, last).0.plan == e.plan,
        e.next < e.plan.len() ==> advance(e, last).0.next > e.next,
        e.next == e.plan.len() ==> advance(e, last).0.next == e.plan.len(),
{
    let error = match e.error {
        Some(x) => Some(x),
        None => match last {
            Ok(()) => None,
            Err(x) => Some(x),
        },
    };
    lemma_next_index_bounds(e.plan, e.next, error is Some, e.clipboard_saved);
}

proof fn lemma_run_to_end(e: ExecModel, outcomes: Seq<Result<(), ExpansionError>>)
    requires
        exec_inv(e),
        outcomes.len() >= e.plan.len() - e.next,
    ensures
        exec_inv(run(e, outcomes)),
        run(e, outcomes).plan == e.plan,
        run(e, outcomes).next == e.plan.len(),
    decreases outcomes.len(),
{
    if outcomes.len() > 0 {
        lemma_advance_keeps_gate_safe(e, outcomes[0]);
        lemma_run_to_end(advance(e, outcomes[0]).0, outcomes.skip(1));
    }
}

/// However each step turns out, success or failure, once the plan of any
/// action has been run to its end listening is on again.
pub proof fn lemma_gate_always_reopens(a: ActionModel, outcomes: Seq<Result<(), ExpansionError>>)
    requires
        outcomes.len() >= plan_of(a).len(),
    ensures
        run(start_of(plan_of(a)), outcomes).next == plan_of(a).len(),
        run(start_of(plan_of(a)), outcomes).gate_open,
{
    let plan = plan_of(a);
    assert(gate_safe(plan));
    lemma_run_to_end(start_of(plan), outcomes);
}

/// Replaying keeps the order of the queue: the keys of two stretches of
/// events are those of the first, then those of the second.
pub proof fn lemma_replay_keeps_order(a: Seq<HookMessage>, b: Seq<HookMessage>)
    ensures
        replay_of(a + b) == replay_of(a) + replay_of(b),
    decreases b.len(),
{
    if b.len() == 0 {
        assert(a + b =~= a);
        assert(replay_of(b) =~= Seq::<KeyTap>::empty());
        assert(replay_of(a) + replay_of(b) =~= replay_of(a));
    } else {
        assert((a + b).drop_last() =~= a + b.drop_last());
        lemma_replay_keeps_order(a, b.drop_last());
        match b.last() {
            HookMessage::KeyDown { vk_code, scan_code, .. } => {
                assert(replay_of(a) + replay_of(b) =~= (replay_of(a) + replay_of(b.drop_last())).push(
                    KeyTap { vk_code, scan_code },
                ));
            },
            HookMessage::MouseDown(_) => {},
        }
    }
}

/// Each key press in the queue is typed again exactly once and mouse events
/// never: a lone event replays as itself or as nothing.
pub proof fn lemma_replay_of_one(m: HookMessage)
    ensures
        replay_of(seq![m]) == match m {
            HookMessage::KeyDown { vk_code, scan_code, .. } => seq![KeyTap { vk_code, scan_code }],
            HookMessage::MouseDown(_) => Seq::<KeyTap>::empty(),
        },
{
    assert(seq![m].drop_last() =~= Seq::<HookMessage>::empty());
    assert(replay_of(Seq::<HookMessage>::empty()) =~= Seq::<KeyTap>::empty());
    match m {
        HookMessage::KeyDown { vk_code, scan_code, .. } => {
            assert(Seq::<KeyTap>::empty().push(KeyTap { vk_code, scan_code }) =~= seq![KeyTap { vk_code, scan_code }]);
        },
        HookMessage::MouseDown(_) => {},
    }
}

} // verus!
