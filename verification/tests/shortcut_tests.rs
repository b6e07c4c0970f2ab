use rectanglewin::shortcut::{
    format_shortcut, key_name_to_vk, modifier_from_lowercase, parse_modifier,
    shortcut_to_plugin_format, try_parse_shortcut, vk_from_lowercase, vk_to_key_name, MOD_ALT,
    MOD_CONTROL, MOD_NOREPEAT, MOD_SHIFT, MOD_WIN,
};

#[test]
fn key_names_for_known_and_unknown_codes() {
    assert_eq!(vk_to_key_name(0x25), "Left");
    assert_eq!(vk_to_key_name(0x0D), "Enter");
    assert_eq!(vk_to_key_name(0x30), "0");
    assert_eq!(vk_to_key_name(0x57), "W");
    assert_eq!(vk_to_key_name(0x4C), "0x4C");
    assert_eq!(vk_to_key_name(0x70), "0x70");
    assert_eq!(vk_to_key_name(0), "0x0");
    assert_eq!(vk_to_key_name(0xABCDEF12), "0xABCDEF12");
    assert_eq!(vk_to_key_name(u32::MAX), "0xFFFFFFFF");
}

#[test]
fn formatting_orders_modifiers() {
    assert_eq!(format_shortcut(MOD_NOREPEAT | MOD_WIN | MOD_ALT, 0x25), "Win+Alt+Left");
    assert_eq!(format_shortcut(MOD_SHIFT | MOD_CONTROL | MOD_ALT | MOD_WIN, 0x41), "Win+Alt+Ctrl+Shift+A");
    assert_eq!(format_shortcut(0, 0x2E), "Delete");
    assert_eq!(format_shortcut(MOD_CONTROL, 0x4C), "Ctrl+0x4C");
}

#[test]
fn parsing_known_shortcuts() {
    assert_eq!(try_parse_shortcut("Win+Alt+Left"), Some((0x4009, 0x25)));
    assert_eq!(try_parse_shortcut("  ctrl + SHIFT + d "), Some((0x4006, 0x44)));
    assert_eq!(try_parse_shortcut("Control+7"), Some((0x4002, 0x37)));
    assert_eq!(try_parse_shortcut("z"), Some((0x4000, 0x5A)));
    assert_eq!(try_parse_shortcut("Win++Up"), Some((0x4008, 0x26)));
    assert_eq!(try_parse_shortcut("Win+Alt+DELETE"), Some((0x4009, 0x2E)));
    assert_eq!(try_parse_shortcut("Win+Win+Enter"), Some((0x4008, 0x0D)));
}

#[test]
fn parsing_rejects_bad_shortcuts() {
    assert_eq!(try_parse_shortcut(""), None);
    assert_eq!(try_parse_shortcut("   "), None);
    assert_eq!(try_parse_shortcut("+++"), None);
    assert_eq!(try_parse_shortcut("Win+Alt"), None);
    assert_eq!(try_parse_shortcut("Hyper+Left"), None);
    assert_eq!(try_parse_shortcut("Win+F13"), None);
    assert_eq!(try_parse_shortcut("Win+0x4C"), None);
    assert_eq!(try_parse_shortcut("Win+L"), Some((0x4008, 0x4C)));
}

#[test]
fn format_then_parse_round_trips_named_keys() {
    for vk in [0x25u32, 0x26, 0x27, 0x28, 0x0D, 0x2E, 0x30, 0x39, 0x41, 0x4B, 0x4E, 0x57] {
        for m in [0u32, 1, 2, 4, 8, 0xF, 0x4009, 0x400F] {
            let text = format_shortcut(m, vk);
            assert_eq!(try_parse_shortcut(&text), Some(((m & 0xF) | MOD_NOREPEAT, vk)));
        }
    }
}

#[test]
fn modifier_and_key_words() {
    assert_eq!(parse_modifier("WIN"), Some(MOD_WIN));
    assert_eq!(parse_modifier("Alt"), Some(MOD_ALT));
    assert_eq!(parse_modifier("control"), Some(MOD_CONTROL));
    assert_eq!(parse_modifier("Shift"), Some(MOD_SHIFT));
    assert_eq!(parse_modifier(" win"), None);
    assert_eq!(parse_modifier("super"), None);
    assert_eq!(modifier_from_lowercase("ctrl"), Some(MOD_CONTROL));
    assert_eq!(modifier_from_lowercase("Ctrl"), None);
    assert_eq!(key_name_to_vk(" left "), Some(0x25));
    assert_eq!(key_name_to_vk("RIGHT"), Some(0x27));
    assert_eq!(key_name_to_vk("q"), Some(0x51));
    assert_eq!(key_name_to_vk("Q"), Some(0x51));
    assert_eq!(key_name_to_vk("5"), Some(0x35));
    assert_eq!(key_name_to_vk(""), None);
    assert_eq!(key_name_to_vk("é"), None);
    assert_eq!(key_name_to_vk("Home"), None);
    // The Kelvin sign lowercases to an ASCII 'k'.
    assert_eq!(key_name_to_vk("\u{212A}"), Some(0x4B));
    assert_eq!(vk_from_lowercase("enter"), Some(0x0D));
    assert_eq!(vk_from_lowercase("l"), None);
}

#[test]
fn plugin_spelling() {
    assert_eq!(shortcut_to_plugin_format("Win+Alt+Left"), "Super+Alt+Left");
    assert_eq!(shortcut_to_plugin_format("Alt+W"), "Alt+W");
    assert_eq!(shortcut_to_plugin_format("Win"), "Super");
    assert_eq!(shortcut_to_plugin_format("WinWin+Win"), "SuperSuper+Super");
    assert_eq!(shortcut_to_plugin_format(""), "");
}

#[test]
fn parsing_ignores_spacing_case_order_and_repeats() {
    assert_eq!(try_parse_shortcut(" alt + WIN + left "), Some((0x4009, 0x25)));
    assert_eq!(try_parse_shortcut("Win+Win+Alt++Left"), Some((0x4009, 0x25)));
    assert_eq!(try_parse_shortcut("Ctrl+A"), Some((0x4002, 0x41)));
    assert_eq!(try_parse_shortcut("control+a"), Some((0x4002, 0x41)));
    assert_eq!(try_parse_shortcut("A"), Some((0x4000, 0x41)));
    for s in ["Win+Alt+Ctrl+Shift+Z", "shift+9", "x", "Win+Delete"] {
        let (m, _) = try_parse_shortcut(s).unwrap();
        assert!(m & MOD_NOREPEAT != 0 && m & !0x400F == 0);
    }
}
