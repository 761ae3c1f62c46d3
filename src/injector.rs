use vstd::prelude::*;
use crate::engine::Separator;
use crate::executor::{ExpansionError, KeyTap};
use crate::text::{encode_utf16, utf16_of};

verus! {

pub const VK_BACK: u16 = 0x08;

pub const VK_RETURN: u16 = 0x0D;

pub const VK_SPACE: u16 = 0x20;

pub const VK_SHIFT: u16 = 0x10;

pub const VK_CONTROL: u16 = 0x11;

pub const VK_END: u16 = 0x23;

pub const VK_V: u16 = 0x56;

/// One synthetic keyboard event: a virtual key, or a UTF-16 unit when
/// `unicode` is set, going down or up.
#[derive(Debug, Clone, Copy, PartialEq, Eq, Structural)]
pub struct SyntheticKey {
    pub vk: u16,
    pub scan: u16,
    pub unicode: bool,
    pub key_up: bool,
}

pub open spec fn press(vk: u16) -> SyntheticKey {
    SyntheticKey { vk, scan: 0, unicode: false, key_up: false }
}

pub open spec fn release(vk: u16) -> SyntheticKey {
    SyntheticKey { vk, scan: 0, unicode: false, key_up: true }
}

pub open spec fn tap(vk: u16) -> Seq<SyntheticKey> {
    seq![press(vk), release(vk)]
}

/// `n` taps of one key.
pub open spec fn taps(vk: u16, n: nat) -> Seq<SyntheticKey>
    decreases n,
{
    if n == 0 {
        Seq::empty()
    } else {
        taps(vk, (n - 1) as nat) + tap(vk)
    }
}

/// The events for one UTF-16 unit of pasted text: a carriage return is
/// dropped, a line feed becomes the Return key, any other unit is typed as
/// itself.
pub open spec fn unit_events(u: u16) -> Seq<SyntheticKey> {
    if u == 0x0D {
        Seq::empty()
    } else if u == 0x0A {
        tap(VK_RETURN)
    } else {
        seq![
            SyntheticKey { vk: 0, scan: u, unicode: true, key_up: false },
            SyntheticKey { vk: 0, scan: u, unicode: true, key_up: true },
        ]
    }
}

pub open spec fn units_events(units: Seq<u16>) -> Seq<SyntheticKey>
    decreases units.len(),
{
    if units.len() == 0 {
        Seq::empty()
    } else {
        units_events(units.drop_last()) + unit_events(units.last())
    }
}

/// The events that type a stored key again, with its scan code.
pub open spec fn replay_events(keys: Seq<KeyTap>) -> Seq<SyntheticKey>
    decreases keys.len(),
{
    if keys.len() == 0 {
        Seq::empty()
    } else {
        let k = keys.last();
        replay_events(keys.drop_last()) + seq![
            SyntheticKey { vk: k.vk_code as u16, scan: k.scan_code as u16, unicode: false, key_up: false },
            SyntheticKey { vk: k.vk_code as u16, scan: k.scan_code as u16, unicode: false, key_up: true },
        ]
    }
}

fn push_tap(out: &mut Vec<SyntheticKey>, vk: u16)
    ensures
        final(out)@ == old(out)@ + tap(vk),
{
    out.push(SyntheticKey { vk, scan: 0, unicode: false, key_up: false });
    out.push(SyntheticKey { vk, scan: 0, unicode: false, key_up: true });
    assert(final(out)@ =~= old(out)@ + tap(vk));
}

/// `count` taps of Backspace.
pub fn backspace_inputs(count: usize) -> (r: Vec<SyntheticKey>)
    ensures
        r@ == taps(VK_BACK, count as nat),
{
    let mut out: Vec<SyntheticKey> = Vec::new();
    let mut i: usize = 0;
    while i < count
        invariant
            i <= count,
            out@ == taps(VK_BACK, i as nat),
        decreases count - i,
    {
        push_tap(&mut out, VK_BACK);
        i = i + 1;
    }
    out
}

/// The events that type `text` unit by unit, with line breaks sent as the
/// Return key.
pub fn unicode_text_inputs(text: &str) -> (r: Vec<SyntheticKey>)
    ensures
        r@ == units_events(utf16_of(text@)),
{
    let units = encode_utf16(text);
    let mut out: Vec<SyntheticKey> = Vec::new();
    let mut i: usize = 0;
    while i < units.len()
        invariant
            i <= units@.len(),
            out@ == units_events(units@.subrange(0, i as int)),
        decreases units.len() - i,
    {
        let u = units[i];
        assert(units@.subrange(0, i + 1).drop_last() =~= units@.subrange(0, i as int));
        if u == 0x0D {
        } else if u == 0x0A {
            push_tap(&mut out, VK_RETURN);
        } else {
            out.push(SyntheticKey { vk: 0, scan: u, unicode: true, key_up: false });
            out.push(SyntheticKey { vk: 0, scan: u, unicode: true, key_up: true });
        }
        i = i + 1;
        assert(out@ =~= units_events(units@.subrange(0, i as int)));
    }
    assert(units@.subrange(0, units@.len() as int) =~= units@);
    out
}

/// Control down, V down, V up, Control up.
pub fn paste_chord_inputs() -> (r: Vec<SyntheticKey>)
    ensures
        r@ == seq![press(VK_CONTROL), press(VK_V), release(VK_V), release(VK_CONTROL)],
{
    let r = vec![
        SyntheticKey { vk: VK_CONTROL, scan: 0, unicode: false, key_up: false },
        SyntheticKey { vk: VK_V, scan: 0, unicode: false, key_up: false },
        SyntheticKey { vk: VK_V, scan: 0, unicode: false, key_up: true },
        SyntheticKey { vk: VK_CONTROL, scan: 0, unicode: false, key_up: true },
    ];
    assert(r@ =~= seq![press(VK_CONTROL), press(VK_V), release(VK_V), release(VK_CONTROL)]);
    r
}

/// Shift down, End tapped, Shift up: selects to the end of the line.
pub fn select_to_line_end_inputs() -> (r: Vec<SyntheticKey>)
    ensures
        r@ == seq![press(VK_SHIFT), press(VK_END), release(VK_END), release(VK_SHIFT)],
{
    let r = vec![
        SyntheticKey { vk: VK_SHIFT, scan: 0, unicode: false, key_up: false },
        SyntheticKey { vk: VK_END, scan: 0, unicode: false, key_up: false },
        SyntheticKey { vk: VK_END, scan: 0, unicode: false, key_up: true },
        SyntheticKey { vk: VK_SHIFT, scan: 0, unicode: false, key_up: true },
    ];
    assert(r@ =~= seq![press(VK_SHIFT), press(VK_END), release(VK_END), release(VK_SHIFT)]);
    r
}

pub open spec fn separator_vk(sep: Separator) -> u16 {
    match sep {
        Separator::Space => VK_SPACE,
        Separator::Return => VK_RETURN,
    }
}

/// One tap of the separator's key.
pub fn separator_inputs(sep: Separator) -> (r: Vec<SyntheticKey>)
    ensures
        r@ == tap(separator_vk(sep)),
{
    let mut out: Vec<SyntheticKey> = Vec::new();
    let vk = match sep {
        Separator::Space => VK_SPACE,
        Separator::Return => VK_RETURN,
    };
    push_tap(&mut out, vk);
    assert(out@ =~= tap(separator_vk(sep)));
    out
}

/// The events that type the given keys again, in order.
pub fn replay_inputs(keys: &Vec<KeyTap>) -> (r: Vec<SyntheticKey>)
    ensures
        r@ == replay_events(keys@),
{
    let mut out: Vec<SyntheticKey> = Vec::new();
    let mut i: usize = 0;
    while i < keys.len()
        invariant
            i <= keys@.len(),
            out@ == replay_events(keys@.subrange(0, i as int)),
        decreases keys.len() - i,
    {
        let k = keys[i];
        assert(keys@.subrange(0, i + 1).drop_last() =~= keys@.subrange(0, i as int));
        #[verifier::truncate]
        let vk: u16 = k.vk_code as u16;
        #[verifier::truncate]
        let scan: u16 = k.scan_code as u16;
        out.push(SyntheticKey { vk, scan, unicode: false, key_up: false });
        out.push(SyntheticKey { vk, scan, unicode: false, key_up: true });
        i = i + 1;
        assert(out@ =~= replay_events(keys@.subrange(0, i as int)));
    }
    assert(keys@.subrange(0, keys@.len() as int) =~= keys@);
    out
}

/// A send is complete when every event was accepted; anything less is a
/// short send.
pub fn check_sent(sent: u32, requested: usize) -> (r: Result<(), ExpansionError>)
    ensures
        r == (if sent as int == requested as int {
            Ok::<(), ExpansionError>(())
        } else {
            Err(ExpansionError::InjectionShortSend)
        }),
{
    if sent as u64 == requested as u64 {
        Ok(())
    } else {
        Err(ExpansionError::InjectionShortSend)
    }
}

} // verus!
