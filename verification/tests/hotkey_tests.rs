use rectanglewin::config::HotkeyBinding;
use rectanglewin::hotkey::{
    bindings_from_hotkeys, is_modifier_key, modifier_bit_for_vk, modifier_snapshot,
    new_hook_state, on_key_event, set_hotkeys, should_consume_hotkey, should_suppress_repeat,
    update_modifier_state, HookState, KeyDecision, TriggeredHotkey, MOD_ALT_BIT, MOD_CONTROL_BIT,
    MOD_SHIFT_BIT, MOD_WIN_BIT, REPEAT_SUPPRESSION_WINDOW, VK_CONTROL, VK_LMENU, VK_LSHIFT,
    VK_LWIN, VK_MENU, VK_RWIN,
};

const MILLIS: u64 = 1_000_000;

#[test]
fn consumes_only_when_a_real_target_window_exists() {
    assert!(!should_consume_hotkey(false, Some(123)));
    assert!(!should_consume_hotkey(true, None));
    assert!(should_consume_hotkey(true, Some(123)));
}

#[test]
fn repeat_suppression_blocks_only_short_repeat_window() {
    let now: u64 = 5_000 * MILLIS;
    let last_triggered = Some(TriggeredHotkey {
        modifiers: 0x09,
        vk: 0x25,
        triggered_at: now,
    });

    assert!(should_suppress_repeat(
        last_triggered,
        0x09,
        0x25,
        now + 250 * MILLIS
    ));
    assert!(!should_suppress_repeat(
        last_triggered,
        0x09,
        0x25,
        now + REPEAT_SUPPRESSION_WINDOW + 1 * MILLIS
    ));
    assert!(!should_suppress_repeat(
        last_triggered,
        0x08,
        0x25,
        now + 250 * MILLIS
    ));
    assert!(!should_suppress_repeat(
        last_triggered,
        0x09,
        0x27,
        now + 250 * MILLIS
    ));
}

#[test]
fn modifier_vk_mapping_covers_supported_keys() {
    assert_eq!(modifier_bit_for_vk(VK_LWIN), Some(MOD_WIN_BIT));
    assert_eq!(modifier_bit_for_vk(VK_CONTROL), Some(MOD_CONTROL_BIT));
    assert_eq!(modifier_bit_for_vk(VK_LMENU), Some(MOD_ALT_BIT));
    assert_eq!(modifier_bit_for_vk(VK_LSHIFT), Some(MOD_SHIFT_BIT));
    assert_eq!(modifier_bit_for_vk(0x41), None);
}

#[test]
fn modifier_state_tracks_press_and_release() {
    let mut state = HookState {
        hotkeys: Vec::new(),
        last_triggered: None,
        current_modifiers: 0,
        last_callback_at: 0,
    };

    update_modifier_state(&mut state, VK_LWIN, false);
    update_modifier_state(&mut state, VK_CONTROL, false);
    assert_eq!(state.current_modifiers, MOD_WIN_BIT | MOD_CONTROL_BIT);

    update_modifier_state(&mut state, VK_LWIN, true);
    assert_eq!(state.current_modifiers, MOD_CONTROL_BIT);

    update_modifier_state(&mut state, VK_CONTROL, true);
    assert_eq!(state.current_modifiers, 0);
}

#[test]
fn repeat_exactly_at_window_edge_and_clock_going_backwards() {
    let last = Some(TriggeredHotkey { modifiers: 0x09, vk: 0x25, triggered_at: 1000 });
    assert!(should_suppress_repeat(last, 0x09, 0x25, 1000 + REPEAT_SUPPRESSION_WINDOW));
    assert!(should_suppress_repeat(last, 0x09, 0x25, 1000));
    assert!(!should_suppress_repeat(last, 0x09, 0x25, 999));
    assert!(!should_suppress_repeat(None, 0x09, 0x25, 1000));
}

fn win_alt_bindings() -> Vec<HotkeyBinding> {
    vec![
        HotkeyBinding { action: "LeftHalf".to_string(), modifiers: 0x4009, virtual_key: 0x25 },
        HotkeyBinding { action: "Maximize".to_string(), modifiers: 0x4009, virtual_key: 0x0D },
        HotkeyBinding { action: "Shadowed".to_string(), modifiers: 0x0009, virtual_key: 0x25 },
    ]
}

#[test]
fn bindings_keep_only_the_modifier_flags() {
    let b = bindings_from_hotkeys(win_alt_bindings());
    assert_eq!(b.len(), 3);
    assert_eq!(b[0], (0x09, 0x25, "LeftHalf".to_string()));
    assert_eq!(b[1], (0x09, 0x0D, "Maximize".to_string()));
    assert_eq!(b[2], (0x09, 0x25, "Shadowed".to_string()));
}

#[test]
fn key_events_trigger_suppress_and_reset() {
    let mut s = new_hook_state(win_alt_bindings(), 0, 0);
    assert_eq!(on_key_event(&mut s, VK_LWIN, false, true, true, 10), KeyDecision::PassThrough);
    assert_eq!(on_key_event(&mut s, VK_MENU, false, true, true, 20), KeyDecision::PassThrough);
    assert_eq!(s.current_modifiers, MOD_WIN_BIT | MOD_ALT_BIT);
    // The first matching binding wins.
    assert_eq!(
        on_key_event(&mut s, 0x25, false, true, true, 30),
        KeyDecision::Trigger("LeftHalf".to_string())
    );
    assert_eq!(s.last_triggered, Some(TriggeredHotkey { modifiers: 0x09, vk: 0x25, triggered_at: 30 }));
    assert_eq!(s.last_callback_at, 30);
    // Auto-repeat within the window is swallowed.
    assert_eq!(on_key_event(&mut s, 0x25, false, true, true, 30 + 100 * MILLIS), KeyDecision::Suppress);
    // After the window it triggers again.
    assert_eq!(
        on_key_event(&mut s, 0x25, false, true, true, 30 + 900 * MILLIS),
        KeyDecision::Trigger("LeftHalf".to_string())
    );
    // A key-up forgets the last trigger.
    assert_eq!(on_key_event(&mut s, 0x25, true, false, true, 31 + 900 * MILLIS), KeyDecision::PassThrough);
    assert_eq!(s.last_triggered, None);
    assert_eq!(
        on_key_event(&mut s, 0x25, false, true, true, 32 + 900 * MILLIS),
        KeyDecision::Trigger("LeftHalf".to_string())
    );
    // Unbound key and non-key-down messages pass through.
    assert_eq!(on_key_event(&mut s, 0x41, false, true, true, 40 * MILLIS * 100), KeyDecision::PassThrough);
    assert_eq!(on_key_event(&mut s, 0x0D, false, false, true, 41 * MILLIS * 100), KeyDecision::PassThrough);
    // Releasing Alt changes the modifiers, so Enter no longer matches.
    assert_eq!(on_key_event(&mut s, VK_MENU, true, false, true, 42 * MILLIS * 100), KeyDecision::PassThrough);
    assert_eq!(s.current_modifiers, MOD_WIN_BIT);
    assert_eq!(on_key_event(&mut s, 0x0D, false, true, true, 43 * MILLIS * 100), KeyDecision::PassThrough);
}

#[test]
fn snapshot_and_replacing_hotkeys() {
    assert_eq!(modifier_snapshot(0, 0, 0, 0, 0), 0);
    assert_eq!(modifier_snapshot(-32768, 0, 0, 0, 0), MOD_CONTROL_BIT);
    assert_eq!(modifier_snapshot(0, -32767, 1, 0, -1), MOD_ALT_BIT | MOD_WIN_BIT);
    assert_eq!(modifier_snapshot(0, 0, -2, 0, 0), MOD_SHIFT_BIT);
    let mut s = new_hook_state(Vec::new(), 0, 5);
    s.last_triggered = Some(TriggeredHotkey { modifiers: 1, vk: 2, triggered_at: 3 });
    set_hotkeys(&mut s, win_alt_bindings(), MOD_WIN_BIT);
    assert_eq!(s.hotkeys.len(), 3);
    assert_eq!(s.last_triggered, None);
    assert_eq!(s.current_modifiers, MOD_WIN_BIT);
    assert_eq!(s.last_callback_at, 5);
    assert!(is_modifier_key(VK_RWIN));
    assert!(!is_modifier_key(0x25));
}

#[test]
fn no_target_window_never_consumes_a_hotkey() {
    let mut s = new_hook_state(win_alt_bindings(), MOD_WIN_BIT | MOD_ALT_BIT, 0);
    assert_eq!(
        on_key_event(&mut s, 0x25, false, true, true, 10),
        KeyDecision::Trigger("LeftHalf".to_string())
    );
    let first = s.last_triggered;
    // The repeat comes while no window can be acted on: it is handed on, not swallowed.
    assert_eq!(on_key_event(&mut s, 0x25, false, true, false, 20), KeyDecision::PassThrough);
    assert_eq!(s.last_triggered, first);
    // With no earlier trigger, a press without a target records nothing.
    let mut t = new_hook_state(win_alt_bindings(), MOD_WIN_BIT | MOD_ALT_BIT, 0);
    assert_eq!(on_key_event(&mut t, 0x25, false, true, false, 10), KeyDecision::PassThrough);
    assert_eq!(on_key_event(&mut t, 0x25, false, true, false, 20), KeyDecision::PassThrough);
    assert_eq!(t.last_triggered, None);
    assert_eq!(
        on_key_event(&mut t, 0x25, false, true, true, 30),
        KeyDecision::Trigger("LeftHalf".to_string())
    );
}
