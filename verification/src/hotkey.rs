//! Decisions of the low-level keyboard hook: which keys are modifiers, how the
//! pressed-modifier state follows key events, which key events trigger a
//! hotkey, and when a repeated trigger is swallowed.
//!
//! Points in time are nanoseconds since an origin the caller fixes.

use vstd::prelude::*;
use crate::config::{HotkeyBinding, binding_view};

verus! {

/// MOD_ALT | MOD_CONTROL | MOD_SHIFT | MOD_WIN.
pub const MOD_MASK: u32 = 0x000F;

pub const MOD_ALT_BIT: u32 = 0x01;

pub const MOD_CONTROL_BIT: u32 = 0x02;

pub const MOD_SHIFT_BIT: u32 = 0x04;

pub const MOD_WIN_BIT: u32 = 0x08;

pub const VK_LWIN: u32 = 0x5B;

pub const VK_RWIN: u32 = 0x5C;

pub const VK_CONTROL: u32 = 0x11;

/// Alt, without telling left from right.
pub const VK_MENU: u32 = 0x12;

pub const VK_SHIFT: u32 = 0x10;

/// Left Alt (the hook can receive these instead of `VK_MENU`).
pub const VK_LMENU: u32 = 0xA4;

pub const VK_RMENU: u32 = 0xA5;

pub const VK_LCONTROL: u32 = 0xA2;

pub const VK_RCONTROL: u32 = 0xA3;

pub const VK_LSHIFT: u32 = 0xA0;

pub const VK_RSHIFT: u32 = 0xA1;

/// How long after a trigger the same hotkey is swallowed instead of triggering
/// again: 750 ms, in nanoseconds.
pub const REPEAT_SUPPRESSION_WINDOW: u64 = 750_000_000;

/// Bit of a key state word that is set while the key is down.
pub const KEY_DOWN_MASK: u16 = 0x8000;

/// The hotkey that triggered last, and when.
#[derive(Clone, Copy, Debug, PartialEq, Eq, Structural)]
pub struct TriggeredHotkey {
    pub modifiers: u32,
    pub vk: u32,
    pub triggered_at: u64,
}

/// State of the keyboard hook: the bindings as (modifiers & MOD_MASK, key,
/// action name), the last trigger, the modifier keys held down, and the time of
/// the last callback.
#[derive(Debug)]
pub struct HookState {
    pub hotkeys: Vec<(u32, u32, String)>,
    pub last_triggered: Option<TriggeredHotkey>,
    pub current_modifiers: u32,
    pub last_callback_at: u64,
}

/// What the hook does with a key event.
#[derive(Debug, PartialEq, Eq)]
pub enum KeyDecision {
    /// Hand the event on to the next hook.
    PassThrough,
    /// Swallow the event: it repeats a hotkey that has just triggered.
    Suppress,
    /// The event is the hotkey of this action.
    Trigger(String),
}

/// Only a matched hotkey with a window to act on is swallowed.
pub fn should_consume_hotkey(matched_action: bool, hwnd_raw: Option<usize>) -> (r: bool)
    ensures
        r == (matched_action && hwnd_raw is Some),
{
    matched_action && hwnd_raw.is_some()
}

/// The modifier flag of a modifier key (either side, or the side-less code).
pub open spec fn modifier_bit_spec(vk: u32) -> Option<u32> {
    if vk == VK_LWIN || vk == VK_RWIN {
        Some(MOD_WIN_BIT)
    } else if vk == VK_CONTROL || vk == VK_LCONTROL || vk == VK_RCONTROL {
        Some(MOD_CONTROL_BIT)
    } else if vk == VK_MENU || vk == VK_LMENU || vk == VK_RMENU {
        Some(MOD_ALT_BIT)
    } else if vk == VK_SHIFT || vk == VK_LSHIFT || vk == VK_RSHIFT {
        Some(MOD_SHIFT_BIT)
    } else {
        None
    }
}

pub fn modifier_bit_for_vk(vk: u32) -> (r: Option<u32>)
    ensures
        r == modifier_bit_spec(vk),
{
    match vk {
        VK_LWIN | VK_RWIN => Some(MOD_WIN_BIT),
        VK_CONTROL | VK_LCONTROL | VK_RCONTROL => Some(MOD_CONTROL_BIT),
        VK_MENU | VK_LMENU | VK_RMENU => Some(MOD_ALT_BIT),
        VK_SHIFT | VK_LSHIFT | VK_RSHIFT => Some(MOD_SHIFT_BIT),
        _ => None,
    }
}

pub fn is_modifier_key(vk: u32) -> (r: bool)
    ensures
        r == (modifier_bit_spec(vk) is Some),
{
    modifier_bit_for_vk(vk).is_some()
}

/// The held-modifier flags after a key event: a modifier key's flag is set
/// when it goes down and cleared when it comes up; other keys change nothing.
pub open spec fn modifiers_after(mods: u32, vk: u32, is_up: bool) -> u32 {
    match modifier_bit_spec(vk) {
        None => mods,
        Some(bit) => if is_up {
            mods & !bit
        } else {
            mods | bit
        },
    }
}

/// Tracks the held modifier keys through a key event.
pub fn update_modifier_state(state: &mut HookState, vk: u32, is_up: bool)
    ensures
        final(state).current_modifiers == modifiers_after(old(state).current_modifiers, vk, is_up),
        final(state).hotkeys == old(state).hotkeys,
        final(state).last_triggered == old(state).last_triggered,
        final(state).last_callback_at == old(state).last_callback_at,
{
    let bit = match modifier_bit_for_vk(vk) {
        Some(b) => b,
        None => return,
    };
    if is_up {
        state.current_modifiers = state.current_modifiers & !bit;
    } else {
        state.current_modifiers = state.current_modifiers | bit;
    }
}

/// The same hotkey (same modifiers and key) triggered at most the suppression
/// window before `now`, and not after it.
pub open spec fn suppress_repeat_spec(
    last: Option<TriggeredHotkey>,
    modifiers: u32,
    vk: u32,
    now: u64,
) -> bool {
    match last {
        Some(l) => l.modifiers == modifiers && l.vk == vk && l.triggered_at <= now && now
            - l.triggered_at <= REPEAT_SUPPRESSION_WINDOW,
        None => false,
    }
}

/// Whether a trigger of (modifiers, vk) at `now` repeats the last one too soon.
pub fn should_suppress_repeat(
    last_triggered: Option<TriggeredHotkey>,
    modifiers: u32,
    vk: u32,
    now: u64,
) -> (r: bool)
    ensures
        r == suppress_repeat_spec(last_triggered, modifiers, vk, now),
{
    match last_triggered {
        Some(last) => last.modifiers == modifiers && last.vk == vk && last.triggered_at <= now
            && now - last.triggered_at <= REPEAT_SUPPRESSION_WINDOW,
        None => false,
    }
}

/// The hook's form of a binding: modifiers cut down to the four modifier
/// flags, key, action.
pub open spec fn hook_binding_spec(b: HotkeyBinding) -> (u32, u32, Seq<char>) {
    (b.modifiers & MOD_MASK, b.virtual_key, b.action@)
}

pub open spec fn hook_bindings_view(hk: Seq<(u32, u32, String)>) -> Seq<(u32, u32, Seq<char>)> {
    hk.map_values(|e: (u32, u32, String)| (e.0, e.1, e.2@))
}

/// The hook's form of the bindings.
pub fn bindings_from_hotkeys(hotkeys: Vec<HotkeyBinding>) -> (r: Vec<(u32, u32, String)>)
    ensures
        hook_bindings_view(r@) == hotkeys@.map_values(|b: HotkeyBinding| hook_binding_spec(b)),
{
    let ghost all = hotkeys@;
    let mut rest = hotkeys;
    let mut out: Vec<(u32, u32, String)> = Vec::new();
    let n = rest.len();
    let mut i: usize = 0;
    assert(all.skip(0) =~= all);
    while i < n
        invariant
            n == all.len(),
            i <= n,
            rest@ == all.skip(i as int),
            out@.len() == i,
            hook_bindings_view(out@) == all.take(i as int).map_values(
                |b: HotkeyBinding| hook_binding_spec(b),
            ),
        decreases n - i,
    {
        let b = rest.remove(0);
        proof {
            assert(b == all[i as int]);
            assert(rest@ =~= all.skip(i + 1));
        }
        let ghost before = out@;
        out.push((b.modifiers & MOD_MASK, b.virtual_key, b.action));
        proof {
            assert(out@ == before.push(out@[i as int]));
            assert(hook_bindings_view(out@) =~= hook_bindings_view(before).push(
                hook_binding_spec(all[i as int]),
            ));
            assert(all.take(i + 1) =~= all.take(i as int).push(all[i as int]));
            assert(all.take(i + 1).map_values(|b: HotkeyBinding| hook_binding_spec(b))
                =~= all.take(i as int).map_values(|b: HotkeyBinding| hook_binding_spec(b)).push(
                hook_binding_spec(all[i as int]),
            ));
        }
        i = i + 1;
    }
    assert(all.take(n as int) =~= all);
    out
}

/// Whether a key state word says the key is down.
pub open spec fn key_is_down(state: i16) -> bool {
    state < 0
}

/// The modifier flags held down according to the key state words of Ctrl, Alt,
/// Shift and the two Windows keys.
pub open spec fn modifier_snapshot_spec(ctrl: i16, alt: i16, shift: i16, lwin: i16, rwin: i16) -> u32 {
    (if key_is_down(ctrl) { MOD_CONTROL_BIT } else { 0u32 }) | (if key_is_down(alt) {
        MOD_ALT_BIT
    } else {
        0u32
    }) | (if key_is_down(shift) { MOD_SHIFT_BIT } else { 0u32 }) | (if key_is_down(lwin)
        || key_is_down(rwin) {
        MOD_WIN_BIT
    } else {
        0u32
    })
}

fn is_down(state: i16) -> (r: bool)
    ensures
        r == key_is_down(state),
{
    let r = ((state as u16) & KEY_DOWN_MASK) != 0;
    assert(((state as u16) & 0x8000u16 != 0) == (state < 0)) by (bit_vector);
    r
}

/// The modifier flags held down, from the asynchronous key states (as the OS
/// reports them) of Ctrl, Alt, Shift, left Windows and right Windows.
pub fn modifier_snapshot(ctrl: i16, alt: i16, shift: i16, lwin: i16, rwin: i16) -> (r: u32)
    ensures
        r == modifier_snapshot_spec(ctrl, alt, shift, lwin, rwin),
{
    let c = if is_down(ctrl) { MOD_CONTROL_BIT } else { 0u32 };
    let a = if is_down(alt) { MOD_ALT_BIT } else { 0u32 };
    let s = if is_down(shift) { MOD_SHIFT_BIT } else { 0u32 };
    let w = if is_down(lwin) || is_down(rwin) { MOD_WIN_BIT } else { 0u32 };
    c | a | s | w
}

/// A fresh hook state for the given bindings and held modifiers.
pub fn new_hook_state(hotkeys: Vec<HotkeyBinding>, modifiers: u32, now: u64) -> (s: HookState)
    ensures
        hook_bindings_view(s.hotkeys@) == hotkeys@.map_values(
            |b: HotkeyBinding| hook_binding_spec(b),
        ),
        s.last_triggered is None,
        s.current_modifiers == modifiers,
        s.last_callback_at == now,
{
    HookState {
        hotkeys: bindings_from_hotkeys(hotkeys),
        last_triggered: None,
        current_modifiers: modifiers,
        last_callback_at: now,
    }
}

/// Replaces the bindings (after a configuration reload): the last trigger is
/// forgotten and the held modifiers are taken from `modifiers`.
pub fn set_hotkeys(state: &mut HookState, hotkeys: Vec<HotkeyBinding>, modifiers: u32)
    ensures
        hook_bindings_view(final(state).hotkeys@) == hotkeys@.map_values(
            |b: HotkeyBinding| hook_binding_spec(b),
        ),
        final(state).last_triggered is None,
        final(state).current_modifiers == modifiers,
        final(state).last_callback_at == old(state).last_callback_at,
{
    state.hotkeys = bindings_from_hotkeys(hotkeys);
    state.last_triggered = None;
    state.current_modifiers = modifiers;
}

/// The binding matches the key with exactly the held modifiers.
pub open spec fn binding_matches(e: (u32, u32, String), vk: u32, mods: u32) -> bool {
    e.1 == vk && (e.0 & MOD_MASK) == mods
}

/// The first binding that matches the key and the held modifiers.
pub open spec fn first_match(hk: Seq<(u32, u32, String)>, vk: u32, mods: u32) -> Option<int> {
    if exists|i: int| 0 <= i < hk.len() && binding_matches(#[trigger] hk[i], vk, mods) {
        Some(
            choose|i: int|
                0 <= i < hk.len() && binding_matches(#[trigger] hk[i], vk, mods) && forall|j: int|
                    0 <= j < i ==> !binding_matches(#[trigger] hk[j], vk, mods),
        )
    } else {
        None
    }
}

/// The hook's reaction to a key event: the new last trigger, the new held
/// modifiers, and the decision. A modifier key only updates the held
/// modifiers (and, when released, forgets the last trigger); any key release
/// forgets the last trigger; a key press while there is no window to act on
/// is handed on untouched and leaves the last trigger as it was; otherwise a
/// key press with the held modifiers that matches a binding triggers its
/// action, unless it repeats the last trigger within the suppression window,
/// in which case it is swallowed.
pub open spec fn key_event_spec(
    hk: Seq<(u32, u32, String)>,
    last: Option<TriggeredHotkey>,
    mods: u32,
    vk: u32,
    is_up: bool,
    key_down: bool,
    has_target: bool,
    now: u64,
) -> (Option<TriggeredHotkey>, u32, KeyDecision) {
    if modifier_bit_spec(vk) is Some {
        (if is_up { None } else { last }, modifiers_after(mods, vk, is_up), KeyDecision::PassThrough)
    } else if is_up {
        (None, mods, KeyDecision::PassThrough)
    } else if !key_down || !has_target {
        (last, mods, KeyDecision::PassThrough)
    } else {
        match first_match(hk, vk, mods) {
            None => (last, mods, KeyDecision::PassThrough),
            Some(i) => {
                let e = hk[i];
                if suppress_repeat_spec(last, e.0, e.1, now) {
                    (last, mods, KeyDecision::Suppress)
                } else {
                    (
                        Some(TriggeredHotkey { modifiers: e.0, vk: e.1, triggered_at: now }),
                        mods,
                        KeyDecision::Trigger(e.2),
                    )
                }
            },
        }
    }
}

/// Handles one key event (`is_up`: a release; `key_down`: a key-down or
/// system-key-down message; `has_target`: there is a window an action could
/// apply to) at time `now`. A hotkey is only ever swallowed when there is such
/// a window.
pub fn on_key_event(
    state: &mut HookState,
    vk: u32,
    is_up: bool,
    key_down: bool,
    has_target: bool,
    now: u64,
) -> (d: KeyDecision)
    ensures
        ({
            let (last, mods, dec) = key_event_spec(
                old(state).hotkeys@,
                old(state).last_triggered,
                old(state).current_modifiers,
                vk,
                is_up,
                key_down,
                has_target,
                now,
            );
            &&& final(state).last_triggered == last
            &&& final(state).current_modifiers == mods
            &&& match (d, dec) {
                (KeyDecision::Trigger(a), KeyDecision::Trigger(b)) => a@ == b@,
                (KeyDecision::PassThrough, KeyDecision::PassThrough) => true,
                (KeyDecision::Suppress, KeyDecision::Suppress) => true,
                _ => false,
            }
        }),
        final(state).hotkeys == old(state).hotkeys,
        final(state).last_callback_at == now,
{
    state.last_callback_at = now;
    if is_modifier_key(vk) {
        update_modifier_state(state, vk, is_up);
        if is_up {
            state.last_triggered = None;
        }
        return KeyDecision::PassThrough;
    }
    if is_up {
        state.last_triggered = None;
        return KeyDecision::PassThrough;
    }
    if !key_down || !has_target {
        return KeyDecision::PassThrough;
    }
    let current = state.current_modifiers;
    let n = state.hotkeys.len();
    let mut i: usize = 0;
    while i < n
        invariant
            n == state.hotkeys@.len(),
            i <= n,
            state.hotkeys == old(state).hotkeys,
            state.last_triggered == old(state).last_triggered,
            state.current_modifiers == old(state).current_modifiers,
            current == old(state).current_modifiers,
            state.last_callback_at == now,
            modifier_bit_spec(vk) is None,
            !is_up,
            key_down,
            has_target,
            forall|j: int| 0 <= j < i ==> !binding_matches(#[trigger] state.hotkeys@[j], vk, current),
        decreases n - i,
    {
        let bind_mods = state.hotkeys[i].0;
        let bind_vk = state.hotkeys[i].1;
        if bind_vk == vk && (bind_mods & MOD_MASK) == current {
            proof {
                let hk = state.hotkeys@;
                assert(binding_matches(hk[i as int], vk, current));
                let k = first_match(hk, vk, current)->0;
                assert(k == i as int) by {
                    if k < i {
                    } else if k > i {
                    }
                }
            }
            if should_suppress_repeat(state.last_triggered, bind_mods, bind_vk, now) {
                return KeyDecision::Suppress;
            }
            state.last_triggered = Some(
                TriggeredHotkey { modifiers: bind_mods, vk: bind_vk, triggered_at: now },
            );
            let name = state.hotkeys[i].2.clone();
            return KeyDecision::Trigger(name);
        }
        i = i + 1;
    }
    KeyDecision::PassThrough
}

// ---------------------------------------------------------------------------
// Laws
// ---------------------------------------------------------------------------

/// Pressing a modifier key sets its flag, releasing it clears the flag again,
/// other keys leave the held modifiers alone, and the held modifiers never gain
/// a flag outside `MOD_MASK`.
pub proof fn lemma_modifier_tracking(mods: u32, vk: u32, is_up: bool)
    ensures
        modifier_bit_spec(vk) matches Some(bit) ==> {
            &&& modifiers_after(mods, vk, false) & bit == bit
            &&& modifiers_after(mods, vk, true) & bit == 0
            &&& modifiers_after(modifiers_after(mods, vk, false), vk, true) == mods & !bit
        },
        modifier_bit_spec(vk) is None ==> modifiers_after(mods, vk, is_up) == mods,
        mods & !MOD_MASK == 0 ==> modifiers_after(mods, vk, is_up) & !MOD_MASK == 0,
{
    match modifier_bit_spec(vk) {
        Some(bit) => {
            assert(bit == 1 || bit == 2 || bit == 4 || bit == 8);
            assert((mods | bit) & bit == bit) by (bit_vector);
            assert((mods & !bit) & bit == 0) by (bit_vector);
            assert(((mods | bit) & !bit) == mods & !bit) by (bit_vector);
            assert(mods & !15u32 == 0 && (bit == 1 || bit == 2 || bit == 4 || bit == 8) ==> (mods
                | bit) & !15u32 == 0) by (bit_vector);
            assert(mods & !15u32 == 0 ==> (mods & !bit) & !15u32 == 0) by (bit_vector);
        },
        None => {},
    }
}

/// The modifier snapshot only holds the four modifier flags.
pub proof fn lemma_snapshot_within_mask(ctrl: i16, alt: i16, shift: i16, lwin: i16, rwin: i16)
    ensures
        modifier_snapshot_spec(ctrl, alt, shift, lwin, rwin) & !MOD_MASK == 0,
{
    let c = if key_is_down(ctrl) { 2u32 } else { 0u32 };
    let a = if key_is_down(alt) { 1u32 } else { 0u32 };
    let s = if key_is_down(shift) { 4u32 } else { 0u32 };
    let w = if key_is_down(lwin) || key_is_down(rwin) { 8u32 } else { 0u32 };
    assert((c == 0 || c == 2) && (a == 0 || a == 1) && (s == 0 || s == 4) && (w == 0 || w == 8)
        ==> (c | a | s | w) & !15u32 == 0) by (bit_vector);
}

/// Releasing any key forgets the last trigger, so the next press of a hotkey
/// triggers again.
pub proof fn lemma_release_forgets_trigger(
    hk: Seq<(u32, u32, String)>,
    last: Option<TriggeredHotkey>,
    mods: u32,
    vk: u32,
    key_down: bool,
    has_target: bool,
    now: u64,
)
    ensures
        key_event_spec(hk, last, mods, vk, true, key_down, has_target, now).0 is None,
{
}

/// A key is only consumed when a real target window exists: with no window to
/// act on, every key event is handed on, and the last trigger is left as it
/// was unless the key was released.
pub proof fn lemma_no_target_never_consumes(
    hk: Seq<(u32, u32, String)>,
    last: Option<TriggeredHotkey>,
    mods: u32,
    vk: u32,
    is_up: bool,
    key_down: bool,
    now: u64,
)
    ensures
        ({
            let (l, m, d) = key_event_spec(hk, last, mods, vk, is_up, key_down, false, now);
            &&& d == KeyDecision::PassThrough
            &&& !is_up ==> l == last
            &&& m == modifiers_after(mods, vk, is_up)
        }),
{
}

/// A hotkey press that triggers, repeated with nothing in between, is swallowed
/// while it comes within the suppression window and there still is a target
/// window, and triggers the same action again once the window has passed.
/// Without a target window the repeat is handed on.
pub proof fn lemma_repeat_suppression(
    hk: Seq<(u32, u32, String)>,
    last: Option<TriggeredHotkey>,
    mods: u32,
    vk: u32,
    has_target: bool,
    t1: u64,
    t2: u64,
)
    requires
        key_event_spec(hk, last, mods, vk, false, true, true, t1).2 is Trigger,
    ensures
        ({
            let (l1, m1, d1) = key_event_spec(hk, last, mods, vk, false, true, true, t1);
            let (l2, m2, d2) = key_event_spec(hk, l1, m1, vk, false, true, has_target, t2);
            &&& !has_target ==> d2 == KeyDecision::PassThrough && l2 == l1
            &&& has_target && t1 <= t2 <= t1 + REPEAT_SUPPRESSION_WINDOW ==> d2
                == KeyDecision::Suppress
            &&& has_target && (t2 < t1 || t2 > t1 + REPEAT_SUPPRESSION_WINDOW) ==> d2 == d1
        }),
{
}

/// Which keys are modifiers: Win (0x5B, 0x5C), Ctrl (0x11, 0xA2, 0xA3), Alt
/// (0x12, 0xA4, 0xA5) and Shift (0x10, 0xA0, 0xA1), either side or side-less,
/// each setting its own flag (Alt 1, Ctrl 2, Shift 4, Win 8); no other key is
/// one.
pub proof fn lemma_modifier_keys(vk: u32)
    ensures
        modifier_bit_spec(vk) == Some(8u32) <==> (vk == 0x5B || vk == 0x5C),
        modifier_bit_spec(vk) == Some(2u32) <==> (vk == 0x11 || vk == 0xA2 || vk == 0xA3),
        modifier_bit_spec(vk) == Some(1u32) <==> (vk == 0x12 || vk == 0xA4 || vk == 0xA5),
        modifier_bit_spec(vk) == Some(4u32) <==> (vk == 0x10 || vk == 0xA0 || vk == 0xA1),
        modifier_bit_spec(vk) is None <==> !(vk == 0x5B || vk == 0x5C || vk == 0x11 || vk == 0xA2
            || vk == 0xA3 || vk == 0x12 || vk == 0xA4 || vk == 0xA5 || vk == 0x10 || vk == 0xA0
            || vk == 0xA1),
{
}

proof fn lemma_first_binding_exists(hk: Seq<(u32, u32, String)>, vk: u32, mods: u32, w: int)
    requires
        0 <= w < hk.len(),
        binding_matches(hk[w], vk, mods),
    ensures
        exists|k: int|
            0 <= k < hk.len() && binding_matches(#[trigger] hk[k], vk, mods) && forall|j: int|
                0 <= j < k ==> !binding_matches(#[trigger] hk[j], vk, mods),
    decreases w,
{
    if exists|j: int| 0 <= j < w && binding_matches(#[trigger] hk[j], vk, mods) {
        let j = choose|j: int| 0 <= j < w && binding_matches(#[trigger] hk[j], vk, mods);
        lemma_first_binding_exists(hk, vk, mods, j);
    } else {
        assert(0 <= w < hk.len() && binding_matches(hk[w], vk, mods) && forall|j: int|
            0 <= j < w ==> !binding_matches(#[trigger] hk[j], vk, mods));
    }
}

/// A key press triggers or is swallowed only for a binding of that key whose
/// modifier flags (cut to the four modifier flags) equal the held modifiers
/// exactly, and a trigger names the first such binding; a press that no
/// binding matches exactly (for instance with one modifier more held) is
/// handed on.
pub proof fn lemma_exact_modifier_match(
    hk: Seq<(u32, u32, String)>,
    last: Option<TriggeredHotkey>,
    mods: u32,
    vk: u32,
    is_up: bool,
    key_down: bool,
    has_target: bool,
    now: u64,
)
    ensures
        ({
            let (l, m, d) = key_event_spec(hk, last, mods, vk, is_up, key_down, has_target, now);
            &&& d !is PassThrough ==> exists|i: int|
                0 <= i < hk.len() && (#[trigger] hk[i]).1 == vk && hk[i].0 & 15u32 == mods
            &&& (forall|i: int|
                0 <= i < hk.len() ==> !((#[trigger] hk[i]).1 == vk && hk[i].0 & 15u32 == mods))
                ==> d == KeyDecision::PassThrough
            &&& d matches KeyDecision::Trigger(name) ==> exists|i: int|
                0 <= i < hk.len() && (#[trigger] hk[i]).1 == vk && hk[i].0 & 15u32 == mods
                    && hk[i].2 == name && (forall|j: int|
                    0 <= j < i ==> !((#[trigger] hk[j]).1 == vk && hk[j].0 & 15u32 == mods))
        }),
{
    let (l, m, d) = key_event_spec(hk, last, mods, vk, is_up, key_down, has_target, now);
    if exists|i: int| 0 <= i < hk.len() && binding_matches(#[trigger] hk[i], vk, mods) {
        let w = choose|i: int| 0 <= i < hk.len() && binding_matches(#[trigger] hk[i], vk, mods);
        lemma_first_binding_exists(hk, vk, mods, w);
    }
    if d !is PassThrough {
        let i = first_match(hk, vk, mods)->0;
        assert(hk[i].1 == vk && hk[i].0 & 15u32 == mods);
        assert forall|j: int| 0 <= j < i implies !((#[trigger] hk[j]).1 == vk && hk[j].0 & 15u32
            == mods) by {
            assert(!binding_matches(hk[j], vk, mods));
        }
    }
    if forall|i: int| 0 <= i < hk.len() ==> !((#[trigger] hk[i]).1 == vk && hk[i].0 & 15u32 == mods) {
        if exists|i: int| 0 <= i < hk.len() && binding_matches(#[trigger] hk[i], vk, mods) {
            let i = choose|i: int| 0 <= i < hk.len() && binding_matches(#[trigger] hk[i], vk, mods);
            assert(hk[i].1 == vk && hk[i].0 & 15u32 == mods);
        }
    }
}

/// The modifier snapshot sets Ctrl (2) exactly when the Ctrl key state is
/// down, Alt (1) for Alt, Shift (4) for Shift, and Win (8) when either Windows
/// key is down; a key state is down when its top bit is set.
pub proof fn lemma_snapshot_bits(ctrl: i16, alt: i16, shift: i16, lwin: i16, rwin: i16)
    ensures
        ({
            let m = modifier_snapshot_spec(ctrl, alt, shift, lwin, rwin);
            &&& (m & 2u32 != 0) == (ctrl < 0)
            &&& (m & 1u32 != 0) == (alt < 0)
            &&& (m & 4u32 != 0) == (shift < 0)
            &&& (m & 8u32 != 0) == (lwin < 0 || rwin < 0)
        }),
{
    let c = if ctrl < 0 { 2u32 } else { 0u32 };
    let a = if alt < 0 { 1u32 } else { 0u32 };
    let s = if shift < 0 { 4u32 } else { 0u32 };
    let w = if lwin < 0 || rwin < 0 { 8u32 } else { 0u32 };
    assert((c == 0 || c == 2) && (a == 0 || a == 1) && (s == 0 || s == 4) && (w == 0 || w == 8)
        ==> {
        &&& ((c | a | s | w) & 2u32 != 0) == (c == 2)
        &&& ((c | a | s | w) & 1u32 != 0) == (a == 1)
        &&& ((c | a | s | w) & 4u32 != 0) == (s == 4)
        &&& ((c | a | s | w) & 8u32 != 0) == (w == 8)
    }) by (bit_vector);
}

/// The suppression window is 750 ms, and a repeat at time `now` is swallowed
/// exactly when the last trigger had the same flags and key and lies at most
/// 750 ms (750 000 000 ns) before `now`, and not after it.
pub proof fn lemma_suppression_window(last: TriggeredHotkey, modifiers: u32, vk: u32, now: u64)
    ensures
        REPEAT_SUPPRESSION_WINDOW == 750_000_000u64,
        suppress_repeat_spec(Some(last), modifiers, vk, now) <==> (last.modifiers == modifiers
            && last.vk == vk && last.triggered_at <= now && now <= last.triggered_at
            + 750_000_000),
        !suppress_repeat_spec(None, modifiers, vk, now),
{
}

/// The hook's form of a sequence of bindings.
pub open spec fn hook_form(hotkeys: Seq<HotkeyBinding>) -> Seq<(u32, u32, Seq<char>)> {
    hotkeys.map_values(|b: HotkeyBinding| hook_binding_spec(b))
}

/// The hook keeps of each binding its flags cut to the four modifier flags
/// (mask 15), its key and its action name, in the order of the bindings.
pub proof fn lemma_hook_bindings(hotkeys: Seq<HotkeyBinding>)
    ensures
        hook_form(hotkeys) == hotkeys.map_values(|b: HotkeyBinding| hook_binding_spec(b)),
        hook_form(hotkeys).len() == hotkeys.len(),
        forall|i: int|
            0 <= i < hotkeys.len() ==> #[trigger] hook_form(hotkeys)[i] == (
                hotkeys[i].modifiers & 15u32,
                hotkeys[i].virtual_key,
                hotkeys[i].action@,
            ),
{
}

/// A modifier key is always handed on: pressing it sets its flag and keeps
/// the last trigger, releasing it clears its flag and forgets the last
/// trigger.
pub proof fn lemma_modifier_key_events(
    hk: Seq<(u32, u32, String)>,
    last: Option<TriggeredHotkey>,
    mods: u32,
    vk: u32,
    is_up: bool,
    key_down: bool,
    has_target: bool,
    now: u64,
)
    requires
        modifier_bit_spec(vk) is Some,
    ensures
        ({
            let bit = modifier_bit_spec(vk)->0;
            let (l, m, d) = key_event_spec(hk, last, mods, vk, is_up, key_down, has_target, now);
            &&& d == KeyDecision::PassThrough
            &&& m == (if is_up { mods & !bit } else { mods | bit })
            &&& l == (if is_up { None } else { last })
        }),
{
}

} // verus!
