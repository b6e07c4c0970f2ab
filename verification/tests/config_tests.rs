use rectanglewin::config::{
    default_hotkeys, default_launch_on_login, default_thirds_layout, default_true,
    hotkey_from_frontend, hotkey_from_persisted, hotkeys_from_frontend, hotkeys_from_persisted,
    hotkeys_to_frontend, hotkeys_to_persisted, normalize_action, normalize_thirds_layout,
    shortcut_map_entries, HotkeyBinding, HotkeyForFrontend, PersistedHotkey,
};

fn views(bs: &[HotkeyBinding]) -> Vec<(String, u32, u32)> {
    bs.iter().map(|b| (b.action.clone(), b.modifiers, b.virtual_key)).collect()
}

#[test]
fn defaults() {
    assert!(default_launch_on_login());
    assert!(default_true());
    assert_eq!(default_thirds_layout(), "Thirds");
    let d = default_hotkeys();
    assert_eq!(d.len(), 18);
    assert_eq!(views(&d[..2]), vec![("LeftHalf".to_string(), 0x4009, 0x25), ("RightHalf".to_string(), 0x4009, 0x27)]);
    assert_eq!(views(&d[17..]), vec![("PreviousDisplay".to_string(), 0x4009, 0x50)]);
}

#[test]
fn layout_and_action_normalisation() {
    assert_eq!(normalize_thirds_layout("fifths"), "Fifths");
    assert_eq!(normalize_thirds_layout("FOURTHS"), "Fourths");
    assert_eq!(normalize_thirds_layout("Sixths"), "Thirds");
    assert_eq!(normalize_thirds_layout(""), "Thirds");
    assert_eq!(normalize_action("restore".to_string()), Some("Undo".to_string()));
    assert_eq!(normalize_action("".to_string()), None);
    assert_eq!(normalize_action("Anything".to_string()), Some("Anything".to_string()));
}

fn stored(action: &str, shortcut: Option<&str>, m: Option<u32>, vk: Option<u32>) -> PersistedHotkey {
    PersistedHotkey { action: action.to_string(), shortcut: shortcut.map(|s| s.to_string()), modifiers: m, virtual_key: vk }
}

#[test]
fn stored_hotkeys_are_converted_and_filtered() {
    let b = hotkey_from_persisted(stored("Restore", Some("Win+Alt+Delete"), None, None)).unwrap();
    assert_eq!((b.action.as_str(), b.modifiers, b.virtual_key), ("Undo", 0x4009, 0x2E));
    let b = hotkey_from_persisted(stored("Center", None, Some(0x0003), Some(0x43))).unwrap();
    assert_eq!((b.action.as_str(), b.modifiers, b.virtual_key), ("Center", 0x4003, 0x43));
    // Shortcut text wins over separate fields, even when it does not parse.
    assert!(hotkey_from_persisted(stored("Center", Some("Bogus+Key"), Some(1), Some(0x43))).is_none());
    assert!(hotkey_from_persisted(stored("", Some("Win+Left"), None, None)).is_none());
    assert!(hotkey_from_persisted(stored("Center", None, Some(1), None)).is_none());
    assert!(hotkey_from_persisted(stored("Center", None, None, None)).is_none());

    let loaded = hotkeys_from_persisted(vec![
        stored("LeftHalf", Some("Ctrl+Left"), None, None),
        stored("", Some("Ctrl+Right"), None, None),
        stored("Maximize", None, Some(0x8), Some(0x0D)),
    ]);
    assert_eq!(views(&loaded), vec![("LeftHalf".to_string(), 0x4002, 0x25), ("Maximize".to_string(), 0x4008, 0x0D)]);

    assert_eq!(hotkeys_from_persisted(Vec::new()).len(), 18);
    assert_eq!(views(&hotkeys_from_persisted(vec![stored("", None, None, None)])), views(&default_hotkeys()));
}

#[test]
fn settings_window_hotkeys_are_converted_and_filtered() {
    let b = hotkey_from_frontend(HotkeyForFrontend { action: "RESTORE".to_string(), shortcut: "  Win+Alt+Delete ".to_string() }).unwrap();
    assert_eq!((b.action.as_str(), b.modifiers, b.virtual_key), ("Undo", 0x4009, 0x2E));
    assert!(hotkey_from_frontend(HotkeyForFrontend { action: "Center".to_string(), shortcut: "".to_string() }).is_none());
    let taken = hotkeys_from_frontend(vec![
        HotkeyForFrontend { action: "Center".to_string(), shortcut: "Shift+C".to_string() },
        HotkeyForFrontend { action: "Center".to_string(), shortcut: "Shift+Nope".to_string() },
    ]);
    assert_eq!(views(&taken), vec![("Center".to_string(), 0x4004, 0x43)]);
    assert_eq!(hotkeys_from_frontend(Vec::new()).len(), 18);
}

#[test]
fn store_and_show_then_take_back_the_defaults() {
    let d = default_hotkeys();
    let stored = hotkeys_to_persisted(&d);
    assert_eq!(stored[0].shortcut.as_deref(), Some("Win+Alt+Left"));
    assert!(stored.iter().all(|h| h.modifiers.is_none() && h.virtual_key.is_none()));
    assert_eq!(views(&hotkeys_from_persisted(stored)), views(&d));
    let shown = hotkeys_to_frontend(&d);
    assert_eq!(shown[10].action, "Undo");
    assert_eq!(shown[10].shortcut, "Win+Alt+Delete");
    assert_eq!(views(&hotkeys_from_frontend(shown)), views(&d));
}

#[test]
fn plugin_shortcut_table() {
    let entries = shortcut_map_entries(&default_hotkeys());
    assert_eq!(entries.len(), 18);
    assert_eq!(entries[0], ("Super+Alt+Left".to_string(), "LeftHalf".to_string()));
}
