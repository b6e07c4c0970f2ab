//! Hotkey configuration: the default bindings, and the conversions between
//! the bindings the app runs with and the shapes stored on disk and shown in
//! the settings window (with the normalisation that loading applies).

use vstd::prelude::*;
use vstd::string::*;
use crate::shortcut::{
    MOD_ALT, MOD_NOREPEAT, MOD_WIN, format_shortcut, try_parse_shortcut, format_shortcut_spec,
    try_parse_shortcut_spec, is_named_key, lemma_format_then_parse, shortcut_to_plugin_format,
    plugin_format_spec,
};
use crate::text::{
    chars_of, eq_ignore_ascii_case, eq_ignore_ascii_case_spec, string_from_chars, trim, trim_seq,
    ascii_lower_seq,
};
use crate::engine::section_ratios_spec;

verus! {

/// A hotkey the app reacts to: the action's name, modifier flags and virtual key.
#[derive(Clone, Debug)]
pub struct HotkeyBinding {
    pub action: String,
    pub modifiers: u32,
    pub virtual_key: u32,
}

/// A hotkey as stored in the configuration file: either shortcut text, or
/// modifier flags and a virtual key.
#[derive(Clone, Debug)]
pub struct PersistedHotkey {
    pub action: String,
    pub shortcut: Option<String>,
    pub modifiers: Option<u32>,
    pub virtual_key: Option<u32>,
}

/// A hotkey as the settings window shows it: action and shortcut text.
#[derive(Clone, Debug)]
pub struct HotkeyForFrontend {
    pub action: String,
    pub shortcut: String,
}

/// A binding as plain values: (action name, modifiers, virtual key).
pub type BindingView = (Seq<char>, u32, u32);

pub open spec fn binding_view(b: HotkeyBinding) -> BindingView {
    (b.action@, b.modifiers, b.virtual_key)
}

pub open spec fn bindings_view(bs: Seq<HotkeyBinding>) -> Seq<BindingView> {
    bs.map_values(|b: HotkeyBinding| binding_view(b))
}

/// Win+Alt with auto-repeat suppressed: the modifiers of every default binding.
pub const WIN_ALT: u32 = 0x4009;

/// The default bindings: Win+Alt with the arrows for halves, U/I/J/K for
/// quarters, Enter to maximise, C to centre, Delete to undo, D/E/F/T/G for the
/// sections and N/P for the next and previous display.
pub open spec fn default_bindings_spec() -> Seq<BindingView> {
    seq![
        ("LeftHalf"@, WIN_ALT, 0x25u32),
        ("RightHalf"@, WIN_ALT, 0x27u32),
        ("TopHalf"@, WIN_ALT, 0x26u32),
        ("BottomHalf"@, WIN_ALT, 0x28u32),
        ("UpperLeft"@, WIN_ALT, 0x55u32),
        ("UpperRight"@, WIN_ALT, 0x49u32),
        ("LowerLeft"@, WIN_ALT, 0x4Au32),
        ("LowerRight"@, WIN_ALT, 0x4Bu32),
        ("Maximize"@, WIN_ALT, 0x0Du32),
        ("Center"@, WIN_ALT, 0x43u32),
        ("Undo"@, WIN_ALT, 0x2Eu32),
        ("FirstThird"@, WIN_ALT, 0x44u32),
        ("FirstTwoThirds"@, WIN_ALT, 0x45u32),
        ("CenterThird"@, WIN_ALT, 0x46u32),
        ("LastTwoThirds"@, WIN_ALT, 0x54u32),
        ("LastThird"@, WIN_ALT, 0x47u32),
        ("NextDisplay"@, WIN_ALT, 0x4Eu32),
        ("PreviousDisplay"@, WIN_ALT, 0x50u32),
    ]
}

fn binding(action: &str, vk: u32) -> (b: HotkeyBinding)
    ensures
        binding_view(b) == (action@, WIN_ALT, vk),
{
    assert(0x4000u32 | 0x0008u32 | 0x0001u32 == 0x4009u32) by (bit_vector);
    HotkeyBinding {
        action: String::from_str(action),
        modifiers: MOD_NOREPEAT | MOD_WIN | MOD_ALT,
        virtual_key: vk,
    }
}

/// The default hotkey bindings.
pub fn default_hotkeys() -> (r: Vec<HotkeyBinding>)
    ensures
        bindings_view(r@) == default_bindings_spec(),
{
    let mut v: Vec<HotkeyBinding> = Vec::new();
    v.push(binding("LeftHalf", 0x25));
    v.push(binding("RightHalf", 0x27));
    v.push(binding("TopHalf", 0x26));
    v.push(binding("BottomHalf", 0x28));
    v.push(binding("UpperLeft", 0x55));
    v.push(binding("UpperRight", 0x49));
    v.push(binding("LowerLeft", 0x4A));
    v.push(binding("LowerRight", 0x4B));
    v.push(binding("Maximize", 0x0D));
    v.push(binding("Center", 0x43));
    v.push(binding("Undo", 0x2E));
    v.push(binding("FirstThird", 0x44));
    v.push(binding("FirstTwoThirds", 0x45));
    v.push(binding("CenterThird", 0x46));
    v.push(binding("LastTwoThirds", 0x54));
    v.push(binding("LastThird", 0x47));
    v.push(binding("NextDisplay", 0x4E));
    v.push(binding("PreviousDisplay", 0x50));
    assert(bindings_view(v@) =~= default_bindings_spec());
    v
}

/// Launch at login is on unless the file says otherwise.
pub fn default_launch_on_login() -> (r: bool)
    ensures
        r,
{
    true
}

/// The default for the gap switches that are on unless the file says otherwise.
pub fn default_true() -> (r: bool)
    ensures
        r,
{
    true
}

/// The section layout used when the file names none.
pub fn default_thirds_layout() -> (r: String)
    ensures
        r@ == "Thirds"@,
{
    String::from_str("Thirds")
}

/// The section layout a configured name stands for: "Fifths" and "Fourths" in
/// any ASCII case, and "Thirds" for anything else.
pub open spec fn normalize_layout_spec(s: Seq<char>) -> Seq<char> {
    if eq_ignore_ascii_case_spec(s, "Fifths"@) {
        "Fifths"@
    } else if eq_ignore_ascii_case_spec(s, "Fourths"@) {
        "Fourths"@
    } else {
        "Thirds"@
    }
}

/// Normalises a configured section layout name.
pub fn normalize_thirds_layout(s: &str) -> (r: String)
    ensures
        r@ == normalize_layout_spec(s@),
{
    if eq_ignore_ascii_case(s, "Fifths") {
        String::from_str("Fifths")
    } else if eq_ignore_ascii_case(s, "Fourths") {
        String::from_str("Fourths")
    } else {
        String::from_str("Thirds")
    }
}

/// The action name a configured one stands for: "Restore" in any ASCII case
/// becomes "Undo", an empty name is dropped, any other name is kept as it is.
pub open spec fn normalize_action_spec(a: Seq<char>) -> Option<Seq<char>> {
    if eq_ignore_ascii_case_spec(a, "Restore"@) {
        Some("Undo"@)
    } else if a.len() == 0 {
        None
    } else {
        Some(a)
    }
}

/// Normalises a configured action name.
pub fn normalize_action(action: String) -> (r: Option<String>)
    ensures
        match r {
            Some(s) => normalize_action_spec(action@) == Some(s@),
            None => normalize_action_spec(action@) is None,
        },
{
    if eq_ignore_ascii_case(action.as_str(), "Restore") {
        Some(String::from_str("Undo"))
    } else if action.as_str().is_empty() {
        None
    } else {
        Some(action)
    }
}

/// The binding a stored hotkey yields: shortcut text when present (dropped if
/// it does not parse), otherwise modifier flags and key (with auto-repeat
/// suppressed), otherwise nothing.
pub open spec fn from_persisted_spec(
    action: Seq<char>,
    shortcut: Option<Seq<char>>,
    modifiers: Option<u32>,
    virtual_key: Option<u32>,
) -> Option<BindingView> {
    match normalize_action_spec(action) {
        None => None,
        Some(a) => match shortcut {
            Some(s) => match try_parse_shortcut_spec(s) {
                Some((m, v)) => Some((a, m, v)),
                None => None,
            },
            None => match (modifiers, virtual_key) {
                (Some(m), Some(v)) => Some((a, m | MOD_NOREPEAT, v)),
                _ => None,
            },
        },
    }
}

/// The plain values of a stored hotkey.
pub open spec fn persisted_spec(h: PersistedHotkey) -> Option<BindingView> {
    from_persisted_spec(
        h.action@,
        match h.shortcut {
            Some(s) => Some(s@),
            None => None,
        },
        h.modifiers,
        h.virtual_key,
    )
}

/// The binding a stored hotkey yields, if any.
pub fn hotkey_from_persisted(h: PersistedHotkey) -> (r: Option<HotkeyBinding>)
    ensures
        match r {
            Some(b) => persisted_spec(h) == Some(binding_view(b)),
            None => persisted_spec(h) is None,
        },
{
    let ghost spec = persisted_spec(h);
    let PersistedHotkey { action, shortcut, modifiers, virtual_key } = h;
    let action = match normalize_action(action) {
        Some(a) => a,
        None => return None,
    };
    match shortcut {
        Some(s) => match try_parse_shortcut(s.as_str()) {
            Some((m, v)) => Some(HotkeyBinding { action, modifiers: m, virtual_key: v }),
            None => None,
        },
        None => match (modifiers, virtual_key) {
            (Some(m), Some(v)) => Some(
                HotkeyBinding { action, modifiers: m | MOD_NOREPEAT, virtual_key: v },
            ),
            _ => None,
        },
    }
}

/// The bindings a sequence of stored hotkeys yields, in order.
pub open spec fn filter_persisted(hs: Seq<PersistedHotkey>) -> Seq<BindingView>
    decreases hs.len(),
{
    if hs.len() == 0 {
        Seq::empty()
    } else {
        let rest = filter_persisted(hs.drop_last());
        match persisted_spec(hs.last()) {
            Some(b) => rest.push(b),
            None => rest,
        }
    }
}

/// The bindings loaded from stored hotkeys: those that yield one, or the
/// defaults when none does.
pub open spec fn hotkeys_from_persisted_spec(hs: Seq<PersistedHotkey>) -> Seq<BindingView> {
    let f = filter_persisted(hs);
    if f.len() == 0 {
        default_bindings_spec()
    } else {
        f
    }
}

/// Converts the stored hotkeys into bindings; falls back to the defaults when
/// none is usable.
pub fn hotkeys_from_persisted(hs: Vec<PersistedHotkey>) -> (r: Vec<HotkeyBinding>)
    ensures
        bindings_view(r@) == hotkeys_from_persisted_spec(hs@),
{
    let ghost all = hs@;
    let mut out: Vec<HotkeyBinding> = Vec::new();
    let mut rest = hs;
    let n = rest.len();
    let mut i: usize = 0;
    assert(all.take(0) =~= Seq::<PersistedHotkey>::empty());
    assert(all.skip(0) =~= all);
    while i < n
        invariant
            n == all.len(),
            i <= n,
            rest@ == all.skip(i as int),
            bindings_view(out@) == filter_persisted(all.take(i as int)),
        decreases n - i,
    {
        let h = rest.remove(0);
        proof {
            assert(h == all[i as int]);
            assert(rest@ =~= all.skip(i + 1));
            assert(all.take(i + 1).drop_last() =~= all.take(i as int));
            assert(all.take(i + 1).last() == all[i as int]);
        }
        match hotkey_from_persisted(h) {
            Some(b) => {
                out.push(b);
                assert(bindings_view(out@) =~= filter_persisted(all.take(i + 1)));
            },
            None => {},
        }
        i = i + 1;
    }
    assert(all.take(n as int) =~= all);
    if out.len() == 0 {
        default_hotkeys()
    } else {
        out
    }
}

/// The plain values of a settings-window hotkey: the action normalised and the
/// trimmed shortcut text parsed.
pub open spec fn frontend_spec(h: HotkeyForFrontend) -> Option<BindingView> {
    match normalize_action_spec(h.action@) {
        None => None,
        Some(a) => match try_parse_shortcut_spec(trim_seq(h.shortcut@)) {
            Some((m, v)) => Some((a, m, v)),
            None => None,
        },
    }
}

/// The binding a settings-window hotkey yields, if any.
pub fn hotkey_from_frontend(h: HotkeyForFrontend) -> (r: Option<HotkeyBinding>)
    ensures
        match r {
            Some(b) => frontend_spec(h) == Some(binding_view(b)),
            None => frontend_spec(h) is None,
        },
{
    let HotkeyForFrontend { action, shortcut } = h;
    let action = match normalize_action(action) {
        Some(a) => a,
        None => return None,
    };
    let chars = chars_of(shortcut.as_str());
    let trimmed = string_from_chars(&trim(&chars));
    match try_parse_shortcut(trimmed.as_str()) {
        Some((m, v)) => Some(HotkeyBinding { action, modifiers: m, virtual_key: v }),
        None => None,
    }
}

/// The bindings a sequence of settings-window hotkeys yields, in order.
pub open spec fn filter_frontend(hs: Seq<HotkeyForFrontend>) -> Seq<BindingView>
    decreases hs.len(),
{
    if hs.len() == 0 {
        Seq::empty()
    } else {
        let rest = filter_frontend(hs.drop_last());
        match frontend_spec(hs.last()) {
            Some(b) => rest.push(b),
            None => rest,
        }
    }
}

/// The bindings taken from the settings window: those that yield one, or the
/// defaults when none does.
pub open spec fn hotkeys_from_frontend_spec(hs: Seq<HotkeyForFrontend>) -> Seq<BindingView> {
    let f = filter_frontend(hs);
    if f.len() == 0 {
        default_bindings_spec()
    } else {
        f
    }
}

/// Converts the settings window's hotkeys into bindings; falls back to the
/// defaults when none is usable.
pub fn hotkeys_from_frontend(hs: Vec<HotkeyForFrontend>) -> (r: Vec<HotkeyBinding>)
    ensures
        bindings_view(r@) == hotkeys_from_frontend_spec(hs@),
{
    let ghost all = hs@;
    let mut out: Vec<HotkeyBinding> = Vec::new();
    let mut rest = hs;
    let n = rest.len();
    let mut i: usize = 0;
    assert(all.take(0) =~= Seq::<HotkeyForFrontend>::empty());
    assert(all.skip(0) =~= all);
    while i < n
        invariant
            n == all.len(),
            i <= n,
            rest@ == all.skip(i as int),
            bindings_view(out@) == filter_frontend(all.take(i as int)),
        decreases n - i,
    {
        let h = rest.remove(0);
        proof {
            assert(h == all[i as int]);
            assert(rest@ =~= all.skip(i + 1));
            assert(all.take(i + 1).drop_last() =~= all.take(i as int));
            assert(all.take(i + 1).last() == all[i as int]);
        }
        match hotkey_from_frontend(h) {
            Some(b) => {
                out.push(b);
                assert(bindings_view(out@) =~= filter_frontend(all.take(i + 1)));
            },
            None => {},
        }
        i = i + 1;
    }
    assert(all.take(n as int) =~= all);
    if out.len() == 0 {
        default_hotkeys()
    } else {
        out
    }
}

/// The settings-window form of each binding: its action and its shortcut text.
pub fn hotkeys_to_frontend(bs: &Vec<HotkeyBinding>) -> (r: Vec<HotkeyForFrontend>)
    ensures
        r@.len() == bs@.len(),
        forall|i: int|
            0 <= i < bs@.len() ==> (#[trigger] r@[i]).action@ == bs@[i].action@ && r@[i].shortcut@
                == format_shortcut_spec(bs@[i].modifiers, bs@[i].virtual_key),
{
    let mut out: Vec<HotkeyForFrontend> = Vec::new();
    let mut i: usize = 0;
    while i < bs.len()
        invariant
            i <= bs@.len(),
            out@.len() == i,
            forall|k: int|
                0 <= k < i ==> (#[trigger] out@[k]).action@ == bs@[k].action@ && out@[k].shortcut@
                    == format_shortcut_spec(bs@[k].modifiers, bs@[k].virtual_key),
        decreases bs@.len() - i,
    {
        let b = &bs[i];
        out.push(
            HotkeyForFrontend {
                action: b.action.clone(),
                shortcut: format_shortcut(b.modifiers, b.virtual_key),
            },
        );
        i = i + 1;
    }
    out
}

/// The stored form of each binding: its action and its shortcut text, without
/// separate modifier and key fields.
pub fn hotkeys_to_persisted(bs: &Vec<HotkeyBinding>) -> (r: Vec<PersistedHotkey>)
    ensures
        r@.len() == bs@.len(),
        forall|i: int|
            0 <= i < bs@.len() ==> {
                let h = #[trigger] r@[i];
                &&& h.action@ == bs@[i].action@
                &&& h.shortcut matches Some(s) && s@ == format_shortcut_spec(
                    bs@[i].modifiers,
                    bs@[i].virtual_key,
                )
                &&& h.modifiers is None
                &&& h.virtual_key is None
            },
{
    let mut out: Vec<PersistedHotkey> = Vec::new();
    let mut i: usize = 0;
    while i < bs.len()
        invariant
            i <= bs@.len(),
            out@.len() == i,
            forall|k: int|
                0 <= k < i ==> {
                    let h = #[trigger] out@[k];
                    &&& h.action@ == bs@[k].action@
                    &&& h.shortcut matches Some(s) && s@ == format_shortcut_spec(
                        bs@[k].modifiers,
                        bs@[k].virtual_key,
                    )
                    &&& h.modifiers is None
                    &&& h.virtual_key is None
                },
        decreases bs@.len() - i,
    {
        let b = &bs[i];
        out.push(
            PersistedHotkey {
                action: b.action.clone(),
                shortcut: Some(format_shortcut(b.modifiers, b.virtual_key)),
                modifiers: None,
                virtual_key: None,
            },
        );
        i = i + 1;
    }
    out
}

/// The shortcut table the app keeps for the global-shortcut plugin: for each
/// binding, in order, its shortcut text in the plugin's spelling and its
/// action. (Building a map from it lets a later binding of the same shortcut
/// win.)
pub fn shortcut_map_entries(bs: &Vec<HotkeyBinding>) -> (r: Vec<(String, String)>)
    ensures
        r@.len() == bs@.len(),
        forall|i: int|
            0 <= i < bs@.len() ==> (#[trigger] r@[i]).0@ == plugin_format_spec(
                format_shortcut_spec(bs@[i].modifiers, bs@[i].virtual_key),
            ) && r@[i].1@ == bs@[i].action@,
{
    let mut out: Vec<(String, String)> = Vec::new();
    let mut i: usize = 0;
    while i < bs.len()
        invariant
            i <= bs@.len(),
            out@.len() == i,
            forall|k: int|
                0 <= k < i ==> (#[trigger] out@[k]).0@ == plugin_format_spec(
                    format_shortcut_spec(bs@[k].modifiers, bs@[k].virtual_key),
                ) && out@[k].1@ == bs@[k].action@,
        decreases bs@.len() - i,
    {
        let b = &bs[i];
        let text = format_shortcut(b.modifiers, b.virtual_key);
        let plugin = shortcut_to_plugin_format(text.as_str());
        out.push((plugin, b.action.clone()));
        i = i + 1;
    }
    out
}

// ---------------------------------------------------------------------------
// Laws
// ---------------------------------------------------------------------------

/// Loading never leaves the app without hotkeys: both the file and the settings
/// window yield at least one binding, and the defaults when nothing is usable.
pub proof fn lemma_loaded_hotkeys_never_empty(
    stored: Seq<PersistedHotkey>,
    shown: Seq<HotkeyForFrontend>,
)
    ensures
        hotkeys_from_persisted_spec(stored).len() > 0,
        hotkeys_from_frontend_spec(shown).len() > 0,
        filter_persisted(stored).len() == 0 ==> hotkeys_from_persisted_spec(stored)
            == default_bindings_spec(),
        filter_frontend(shown).len() == 0 ==> hotkeys_from_frontend_spec(shown)
            == default_bindings_spec(),
{
}

proof fn lemma_layout_literals()
    ensures
        ascii_lower_seq("Fifths"@) == "fifths"@,
        ascii_lower_seq("Fourths"@) == "fourths"@,
        ascii_lower_seq("Thirds"@) == "thirds"@,
        "fifths"@.len() == 6 && "fourths"@.len() == 7 && "thirds"@.len() == 6,
        "fifths"@[0] == 'f' && "thirds"@[0] == 't',
{
    reveal_strlit("Fifths");
    reveal_strlit("Fourths");
    reveal_strlit("Thirds");
    reveal_strlit("fifths");
    reveal_strlit("fourths");
    reveal_strlit("thirds");
    assert(ascii_lower_seq("Fifths"@) =~= "fifths"@);
    assert(ascii_lower_seq("Fourths"@) =~= "fourths"@);
    assert(ascii_lower_seq("Thirds"@) =~= "thirds"@);
}

/// A configured section layout always becomes one of "Thirds", "Fourths" and
/// "Fifths"; normalising twice changes nothing more; and the normalised name
/// gives the same section widths as the configured one.
pub proof fn lemma_layout_normalization(s: Seq<char>)
    ensures
        normalize_layout_spec(s) == "Thirds"@ || normalize_layout_spec(s) == "Fourths"@
            || normalize_layout_spec(s) == "Fifths"@,
        normalize_layout_spec(normalize_layout_spec(s)) == normalize_layout_spec(s),
        section_ratios_spec(normalize_layout_spec(s)) == section_ratios_spec(s),
{
    lemma_layout_literals();
}

/// A binding that storing and loading keep as it is: a non-empty action other
/// than "Restore", modifiers made of the four modifier flags and the
/// no-repeat flag (which loading always sets), and a key with a name.
pub open spec fn canonical_binding(b: BindingView) -> bool {
    &&& normalize_action_spec(b.0) == Some(b.0)
    &&& (b.1 & 15u32) | MOD_NOREPEAT == b.1
    &&& is_named_key(b.2)
}

/// Storing bindings and loading them again gives the same bindings, when they
/// are canonical and there is at least one.
pub proof fn lemma_store_then_load(bs: Seq<HotkeyBinding>, stored: Seq<PersistedHotkey>)
    requires
        bs.len() > 0,
        forall|i: int| 0 <= i < bs.len() ==> canonical_binding(#[trigger] binding_view(bs[i])),
        stored.len() == bs.len(),
        forall|i: int|
            0 <= i < bs.len() ==> {
                let h = #[trigger] stored[i];
                &&& h.action@ == bs[i].action@
                &&& h.shortcut matches Some(s) && s@ == format_shortcut_spec(
                    bs[i].modifiers,
                    bs[i].virtual_key,
                )
                &&& h.modifiers is None
                &&& h.virtual_key is None
            },
    ensures
        hotkeys_from_persisted_spec(stored) == bindings_view(bs),
{
    lemma_filter_persisted_canonical(bs, stored);
}

proof fn lemma_filter_persisted_canonical(bs: Seq<HotkeyBinding>, stored: Seq<PersistedHotkey>)
    requires
        forall|i: int| 0 <= i < bs.len() ==> canonical_binding(#[trigger] binding_view(bs[i])),
        stored.len() == bs.len(),
        forall|i: int|
            0 <= i < bs.len() ==> {
                let h = #[trigger] stored[i];
                &&& h.action@ == bs[i].action@
                &&& h.shortcut matches Some(s) && s@ == format_shortcut_spec(
                    bs[i].modifiers,
                    bs[i].virtual_key,
                )
                &&& h.modifiers is None
                &&& h.virtual_key is None
            },
    ensures
        filter_persisted(stored) == bindings_view(bs),
    decreases bs.len(),
{
    if bs.len() > 0 {
        let n = bs.len() - 1;
        let b2 = bs.drop_last();
        let s2 = stored.drop_last();
        assert forall|i: int| 0 <= i < b2.len() implies canonical_binding(
            #[trigger] binding_view(b2[i]),
        ) by {
            assert(b2[i] == bs[i]);
        }
        assert forall|i: int| 0 <= i < b2.len() implies {
            let h = #[trigger] s2[i];
            &&& h.action@ == b2[i].action@
            &&& h.shortcut matches Some(s) && s@ == format_shortcut_spec(
                b2[i].modifiers,
                b2[i].virtual_key,
            )
            &&& h.modifiers is None
            &&& h.virtual_key is None
        } by {
            assert(b2[i] == bs[i]);
            assert(s2[i] == stored[i]);
        }
        lemma_filter_persisted_canonical(b2, s2);
        let b = bs[n];
        let h = stored[n];
        assert(canonical_binding(binding_view(b)));
        lemma_format_then_parse(b.modifiers, b.virtual_key);
        assert(persisted_spec(h) == Some(binding_view(b)));
        assert(bindings_view(bs) =~= bindings_view(b2).push(binding_view(b)));
    }
}

/// Showing bindings in the settings window and taking them back gives the same
/// bindings, when they are canonical and there is at least one.
pub proof fn lemma_show_then_take_back(bs: Seq<HotkeyBinding>, shown: Seq<HotkeyForFrontend>)
    requires
        bs.len() > 0,
        forall|i: int| 0 <= i < bs.len() ==> canonical_binding(#[trigger] binding_view(bs[i])),
        shown.len() == bs.len(),
        forall|i: int|
            0 <= i < bs.len() ==> (#[trigger] shown[i]).action@ == bs[i].action@ && shown[i].shortcut@
                == format_shortcut_spec(bs[i].modifiers, bs[i].virtual_key),
    ensures
        hotkeys_from_frontend_spec(shown) == bindings_view(bs),
{
    lemma_filter_frontend_canonical(bs, shown);
}

proof fn lemma_filter_frontend_canonical(bs: Seq<HotkeyBinding>, shown: Seq<HotkeyForFrontend>)
    requires
        forall|i: int| 0 <= i < bs.len() ==> canonical_binding(#[trigger] binding_view(bs[i])),
        shown.len() == bs.len(),
        forall|i: int|
            0 <= i < bs.len() ==> (#[trigger] shown[i]).action@ == bs[i].action@ && shown[i].shortcut@
                == format_shortcut_spec(bs[i].modifiers, bs[i].virtual_key),
    ensures
        filter_frontend(shown) == bindings_view(bs),
    decreases bs.len(),
{
    if bs.len() > 0 {
        let n = bs.len() - 1;
        let b2 = bs.drop_last();
        let s2 = shown.drop_last();
        assert forall|i: int| 0 <= i < b2.len() implies canonical_binding(
            #[trigger] binding_view(b2[i]),
        ) by {
            assert(b2[i] == bs[i]);
        }
        assert forall|i: int| 0 <= i < b2.len() implies (#[trigger] s2[i]).action@ == b2[i].action@
            && s2[i].shortcut@ == format_shortcut_spec(b2[i].modifiers, b2[i].virtual_key) by {
            assert(b2[i] == bs[i]);
            assert(s2[i] == shown[i]);
        }
        lemma_filter_frontend_canonical(b2, s2);
        let b = bs[n];
        assert(canonical_binding(binding_view(b)));
        lemma_format_then_parse(b.modifiers, b.virtual_key);
        assert(frontend_spec(shown[n]) == Some(binding_view(b)));
        assert(bindings_view(bs) =~= bindings_view(b2).push(binding_view(b)));
    }
}

/// The default bindings are canonical, so they survive storing and loading.
pub proof fn lemma_defaults_canonical()
    ensures
        forall|i: int|
            0 <= i < default_bindings_spec().len() ==> canonical_binding(
                #[trigger] default_bindings_spec()[i],
            ),
{
    assert((0x4009u32 & 15u32) | 0x4000u32 == 0x4009u32) by (bit_vector);
    reveal_strlit("Restore");
    reveal_strlit("LeftHalf");
    reveal_strlit("RightHalf");
    reveal_strlit("TopHalf");
    reveal_strlit("BottomHalf");
    reveal_strlit("UpperLeft");
    reveal_strlit("UpperRight");
    reveal_strlit("LowerLeft");
    reveal_strlit("LowerRight");
    reveal_strlit("Maximize");
    reveal_strlit("Center");
    reveal_strlit("Undo");
    reveal_strlit("FirstThird");
    reveal_strlit("FirstTwoThirds");
    reveal_strlit("CenterThird");
    reveal_strlit("LastTwoThirds");
    reveal_strlit("LastThird");
    reveal_strlit("NextDisplay");
    reveal_strlit("PreviousDisplay");
    let r = ascii_lower_seq("Restore"@);
    assert(r.len() == 7);
    assert(r[0] == 'r');
    assert(ascii_lower_seq("LeftHalf"@).len() != 7 || ascii_lower_seq("LeftHalf"@)[0] != 'r');
    assert(ascii_lower_seq("RightHalf"@).len() != 7 || ascii_lower_seq("RightHalf"@)[0] != 'r');
    assert(ascii_lower_seq("TopHalf"@).len() != 7 || ascii_lower_seq("TopHalf"@)[0] != 'r');
    assert(ascii_lower_seq("BottomHalf"@).len() != 7 || ascii_lower_seq("BottomHalf"@)[0] != 'r');
    assert(ascii_lower_seq("UpperLeft"@).len() != 7 || ascii_lower_seq("UpperLeft"@)[0] != 'r');
    assert(ascii_lower_seq("UpperRight"@).len() != 7 || ascii_lower_seq("UpperRight"@)[0] != 'r');
    assert(ascii_lower_seq("LowerLeft"@).len() != 7 || ascii_lower_seq("LowerLeft"@)[0] != 'r');
    assert(ascii_lower_seq("LowerRight"@).len() != 7 || ascii_lower_seq("LowerRight"@)[0] != 'r');
    assert(ascii_lower_seq("Maximize"@).len() != 7 || ascii_lower_seq("Maximize"@)[0] != 'r');
    assert(ascii_lower_seq("Center"@).len() != 7 || ascii_lower_seq("Center"@)[0] != 'r');
    assert(ascii_lower_seq("Undo"@).len() != 7 || ascii_lower_seq("Undo"@)[0] != 'r');
    assert(ascii_lower_seq("FirstThird"@).len() != 7 || ascii_lower_seq("FirstThird"@)[0] != 'r');
    assert(ascii_lower_seq("FirstTwoThirds"@).len() != 7 || ascii_lower_seq("FirstTwoThirds"@)[0] != 'r');
    assert(ascii_lower_seq("CenterThird"@).len() != 7 || ascii_lower_seq("CenterThird"@)[0] != 'r');
    assert(ascii_lower_seq("LastTwoThirds"@).len() != 7 || ascii_lower_seq("LastTwoThirds"@)[0] != 'r');
    assert(ascii_lower_seq("LastThird"@).len() != 7 || ascii_lower_seq("LastThird"@)[0] != 'r');
    assert(ascii_lower_seq("NextDisplay"@).len() != 7 || ascii_lower_seq("NextDisplay"@)[0] != 'r');
    assert(ascii_lower_seq("PreviousDisplay"@).len() != 7 || ascii_lower_seq("PreviousDisplay"@)[0] != 'r');
}

/// The default hotkeys, in order, all with Win+Alt and auto-repeat
/// suppressed (flags 0x4009): LeftHalf on the left arrow, RightHalf on the right arrow, TopHalf on the up arrow, BottomHalf on the down arrow, UpperLeft on U, UpperRight on I, LowerLeft on J, LowerRight on K, Maximize on Enter, Center on C, Undo on Delete, FirstThird on D, FirstTwoThirds on E, CenterThird on F, LastTwoThirds on T, LastThird on G, NextDisplay on N, PreviousDisplay on P.
pub proof fn lemma_default_table()
    ensures
        default_bindings_spec().len() == 18,
        default_bindings_spec()[0] == ("LeftHalf"@, 0x4009u32, 0x25u32),
        default_bindings_spec()[1] == ("RightHalf"@, 0x4009u32, 0x27u32),
        default_bindings_spec()[2] == ("TopHalf"@, 0x4009u32, 0x26u32),
        default_bindings_spec()[3] == ("BottomHalf"@, 0x4009u32, 0x28u32),
        default_bindings_spec()[4] == ("UpperLeft"@, 0x4009u32, 0x55u32),
        default_bindings_spec()[5] == ("UpperRight"@, 0x4009u32, 0x49u32),
        default_bindings_spec()[6] == ("LowerLeft"@, 0x4009u32, 0x4Au32),
        default_bindings_spec()[7] == ("LowerRight"@, 0x4009u32, 0x4Bu32),
        default_bindings_spec()[8] == ("Maximize"@, 0x4009u32, 0x0Du32),
        default_bindings_spec()[9] == ("Center"@, 0x4009u32, 0x43u32),
        default_bindings_spec()[10] == ("Undo"@, 0x4009u32, 0x2Eu32),
        default_bindings_spec()[11] == ("FirstThird"@, 0x4009u32, 0x44u32),
        default_bindings_spec()[12] == ("FirstTwoThirds"@, 0x4009u32, 0x45u32),
        default_bindings_spec()[13] == ("CenterThird"@, 0x4009u32, 0x46u32),
        default_bindings_spec()[14] == ("LastTwoThirds"@, 0x4009u32, 0x54u32),
        default_bindings_spec()[15] == ("LastThird"@, 0x4009u32, 0x47u32),
        default_bindings_spec()[16] == ("NextDisplay"@, 0x4009u32, 0x4Eu32),
        default_bindings_spec()[17] == ("PreviousDisplay"@, 0x4009u32, 0x50u32),
{
}

/// Loading a stored action name: "Restore" in any ASCII case becomes "Undo",
/// an empty name drops the hotkey, and every other name is kept unchanged.
pub proof fn lemma_action_normalization(a: Seq<char>)
    ensures
        ascii_lower_seq(a) == ascii_lower_seq("Restore"@) ==> normalize_action_spec(a) == Some(
            "Undo"@,
        ),
        ascii_lower_seq(a) != ascii_lower_seq("Restore"@) && a.len() == 0 ==> normalize_action_spec(
            a,
        ) is None,
        ascii_lower_seq(a) != ascii_lower_seq("Restore"@) && a.len() > 0 ==> normalize_action_spec(
            a,
        ) == Some(a),
{
}

/// A stored hotkey with shortcut text takes its flags and key from parsing
/// the text (and is dropped when the text does not parse); one without text
/// but with flags and key gets those flags with auto-repeat suppressed
/// (0x4000) added; one with neither is dropped.
pub proof fn lemma_stored_hotkey_fields(
    action: Seq<char>,
    shortcut: Option<Seq<char>>,
    modifiers: Option<u32>,
    virtual_key: Option<u32>,
)
    requires
        normalize_action_spec(action) is Some,
    ensures
        ({
            let a = normalize_action_spec(action)->0;
            let r = from_persisted_spec(action, shortcut, modifiers, virtual_key);
            &&& shortcut matches Some(s) ==> r == (match try_parse_shortcut_spec(s) {
                Some((m, v)) => Some((a, m, v)),
                None => None,
            })
            &&& shortcut is None && modifiers is Some && virtual_key is Some ==> r == Some(
                (a, modifiers->0 | 0x4000u32, virtual_key->0),
            )
            &&& shortcut is None && (modifiers is None || virtual_key is None) ==> r is None
        }),
{
}

} // verus!
