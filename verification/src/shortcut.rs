//! Human-readable shortcuts such as "Win+Alt+Left": formatting a
//! (modifiers, virtual key) pair and parsing text back into one.

use vstd::prelude::*;
use vstd::string::*;
use crate::text::{
    chars_of, str_eq, string_from_chars, to_lowercase, trim, split, views, replace,
    lowercase_of, trim_seq, trim_start_seq, trim_end_seq, split_seq, replace_seq,
    lemma_split_nonempty, ascii_lower_seq,
};

verus! {

pub const MOD_ALT: u32 = 0x0001;

pub const MOD_CONTROL: u32 = 0x0002;

pub const MOD_SHIFT: u32 = 0x0004;

pub const MOD_WIN: u32 = 0x0008;

pub const MOD_NOREPEAT: u32 = 0x4000;

// ---------------------------------------------------------------------------
// Modifier names
// ---------------------------------------------------------------------------

/// The modifier flag named by an already lowercased word.
pub open spec fn modifier_from_lowercase_spec(l: Seq<char>) -> Option<u32> {
    if l == "win"@ {
        Some(MOD_WIN)
    } else if l == "alt"@ {
        Some(MOD_ALT)
    } else if l == "ctrl"@ || l == "control"@ {
        Some(MOD_CONTROL)
    } else if l == "shift"@ {
        Some(MOD_SHIFT)
    } else {
        None
    }
}

/// The modifier flag named by `s`, compared after Unicode lowercasing.
pub open spec fn parse_modifier_spec(s: Seq<char>) -> Option<u32> {
    modifier_from_lowercase_spec(lowercase_of(s))
}

/// The modifier flag named by an already lowercased word.
pub fn modifier_from_lowercase(l: &str) -> (r: Option<u32>)
    ensures
        r == modifier_from_lowercase_spec(l@),
{
    if str_eq(l, "win") {
        Some(MOD_WIN)
    } else if str_eq(l, "alt") {
        Some(MOD_ALT)
    } else if str_eq(l, "ctrl") || str_eq(l, "control") {
        Some(MOD_CONTROL)
    } else if str_eq(l, "shift") {
        Some(MOD_SHIFT)
    } else {
        None
    }
}

/// Parses a modifier name ("Win", "alt", "CTRL", "Control", "Shift") to its flag.
pub fn parse_modifier(s: &str) -> (r: Option<u32>)
    ensures
        r == parse_modifier_spec(s@),
{
    let lower = to_lowercase(s);
    modifier_from_lowercase(lower.as_str())
}

// ---------------------------------------------------------------------------
// Key names
// ---------------------------------------------------------------------------

/// Upper-case hexadecimal digit for `d < 16`.
pub open spec fn hex_digit(d: nat) -> char {
    if d < 10 {
        (48 + d) as char
    } else {
        (55 + d) as char
    }
}

/// Upper-case hexadecimal digits of `n`, without leading zeros ("0" for zero).
pub open spec fn hex_upper_spec(n: nat) -> Seq<char>
    decreases n,
{
    if n < 16 {
        seq![hex_digit(n)]
    } else {
        hex_upper_spec(n / 16).push(hex_digit(n % 16))
    }
}

fn hex_digit_char(d: u32) -> (c: char)
    requires
        d < 16,
    ensures
        c == hex_digit(d as nat),
{
    if d < 10 {
        (48u8 + d as u8) as char
    } else {
        (55u8 + d as u8) as char
    }
}

fn hex_upper(n: u32) -> (v: Vec<char>)
    ensures
        v@ == hex_upper_spec(n as nat),
    decreases n,
{
    if n < 16 {
        let mut v: Vec<char> = Vec::new();
        v.push(hex_digit_char(n));
        assert(v@ =~= seq![hex_digit(n as nat)]);
        v
    } else {
        let mut v = hex_upper(n / 16);
        v.push(hex_digit_char(n % 16));
        v
    }
}

/// Display name of a virtual key code: the known keys by name, any other code
/// as "0x" followed by its upper-case hexadecimal digits.
pub open spec fn key_name_spec(vk: u32) -> Seq<char> {
    if vk == 0x25 { "Left"@ }
    else if vk == 0x26 { "Up"@ }
    else if vk == 0x27 { "Right"@ }
    else if vk == 0x28 { "Down"@ }
    else if vk == 0x0D { "Enter"@ }
    else if vk == 0x2E { "Delete"@ }
    else if vk == 0x30 { "0"@ }
    else if vk == 0x31 { "1"@ }
    else if vk == 0x32 { "2"@ }
    else if vk == 0x33 { "3"@ }
    else if vk == 0x34 { "4"@ }
    else if vk == 0x35 { "5"@ }
    else if vk == 0x36 { "6"@ }
    else if vk == 0x37 { "7"@ }
    else if vk == 0x38 { "8"@ }
    else if vk == 0x39 { "9"@ }
    else if vk == 0x41 { "A"@ }
    else if vk == 0x42 { "B"@ }
    else if vk == 0x43 { "C"@ }
    else if vk == 0x44 { "D"@ }
    else if vk == 0x45 { "E"@ }
    else if vk == 0x46 { "F"@ }
    else if vk == 0x47 { "G"@ }
    else if vk == 0x48 { "H"@ }
    else if vk == 0x49 { "I"@ }
    else if vk == 0x4A { "J"@ }
    else if vk == 0x4B { "K"@ }
    else if vk == 0x4E { "N"@ }
    else if vk == 0x50 { "P"@ }
    else if vk == 0x51 { "Q"@ }
    else if vk == 0x52 { "R"@ }
    else if vk == 0x53 { "S"@ }
    else if vk == 0x54 { "T"@ }
    else if vk == 0x55 { "U"@ }
    else if vk == 0x57 { "W"@ }
    else { "0x"@ + hex_upper_spec(vk as nat) }
}

/// The virtual key codes that have a display name of their own.
pub open spec fn is_named_key(vk: u32) -> bool {
    ||| vk == 0x25 || vk == 0x26 || vk == 0x27 || vk == 0x28 || vk == 0x0D || vk == 0x2E
    ||| 0x30 <= vk <= 0x39
    ||| 0x41 <= vk <= 0x4B
    ||| vk == 0x4E || vk == 0x50 || vk == 0x51 || vk == 0x52 || vk == 0x53 || vk == 0x54
    ||| vk == 0x55 || vk == 0x57
}

/// Virtual key code to display name.
pub fn vk_to_key_name(vk: u32) -> (s: String)
    ensures
        s@ == key_name_spec(vk),
{
    match vk {
        0x25 => String::from_str("Left"),
        0x26 => String::from_str("Up"),
        0x27 => String::from_str("Right"),
        0x28 => String::from_str("Down"),
        0x0D => String::from_str("Enter"),
        0x2E => String::from_str("Delete"),
        0x30 => String::from_str("0"),
        0x31 => String::from_str("1"),
        0x32 => String::from_str("2"),
        0x33 => String::from_str("3"),
        0x34 => String::from_str("4"),
        0x35 => String::from_str("5"),
        0x36 => String::from_str("6"),
        0x37 => String::from_str("7"),
        0x38 => String::from_str("8"),
        0x39 => String::from_str("9"),
        0x41 => String::from_str("A"),
        0x42 => String::from_str("B"),
        0x43 => String::from_str("C"),
        0x44 => String::from_str("D"),
        0x45 => String::from_str("E"),
        0x46 => String::from_str("F"),
        0x47 => String::from_str("G"),
        0x48 => String::from_str("H"),
        0x49 => String::from_str("I"),
        0x4A => String::from_str("J"),
        0x4B => String::from_str("K"),
        0x4E => String::from_str("N"),
        0x50 => String::from_str("P"),
        0x51 => String::from_str("Q"),
        0x52 => String::from_str("R"),
        0x53 => String::from_str("S"),
        0x54 => String::from_str("T"),
        0x55 => String::from_str("U"),
        0x57 => String::from_str("W"),
        _ => {
            let digits = hex_upper(vk);
            let digits_str = string_from_chars(&digits);
            let mut s = String::from_str("0x");
            s.append(digits_str.as_str());
            s
        },
    }
}

/// The virtual key of a one-character ASCII key name: digits, and letters of
/// either case.
pub open spec fn single_char_vk_spec(c: char) -> Option<u32> {
    if '0' <= c <= '9' {
        Some((0x30 + (c as u32 - '0' as u32)) as u32)
    } else if 'A' <= c <= 'Z' {
        Some((0x41 + (c as u32 - 'A' as u32)) as u32)
    } else if 'a' <= c <= 'z' {
        Some((0x41 + (c as u32 - 'a' as u32)) as u32)
    } else {
        None
    }
}

/// The virtual key named by an already lowercased word.
pub open spec fn vk_from_lowercase_spec(l: Seq<char>) -> Option<u32> {
    if l == "left"@ { Some(0x25u32) }
    else if l == "up"@ { Some(0x26u32) }
    else if l == "right"@ { Some(0x27u32) }
    else if l == "down"@ { Some(0x28u32) }
    else if l == "enter"@ { Some(0x0Du32) }
    else if l == "delete"@ { Some(0x2Eu32) }
    else if l == "1"@ { Some(0x31u32) }
    else if l == "2"@ { Some(0x32u32) }
    else if l == "3"@ { Some(0x33u32) }
    else if l == "4"@ { Some(0x34u32) }
    else if l == "5"@ { Some(0x35u32) }
    else if l == "6"@ { Some(0x36u32) }
    else if l == "a"@ { Some(0x41u32) }
    else if l == "b"@ { Some(0x42u32) }
    else if l == "c"@ { Some(0x43u32) }
    else if l == "d"@ { Some(0x44u32) }
    else if l == "e"@ { Some(0x45u32) }
    else if l == "f"@ { Some(0x46u32) }
    else if l == "g"@ { Some(0x47u32) }
    else if l == "h"@ { Some(0x48u32) }
    else if l == "i"@ { Some(0x49u32) }
    else if l == "j"@ { Some(0x4Au32) }
    else if l == "k"@ { Some(0x4Bu32) }
    else if l == "n"@ { Some(0x4Eu32) }
    else if l == "p"@ { Some(0x50u32) }
    else if l == "q"@ { Some(0x51u32) }
    else if l == "r"@ { Some(0x52u32) }
    else if l == "s"@ { Some(0x53u32) }
    else if l == "t"@ { Some(0x54u32) }
    else if l == "u"@ { Some(0x55u32) }
    else if l == "w"@ { Some(0x57u32) }
    else { None }
}

/// The virtual key named by `name`: surrounding whitespace is ignored; a lone
/// ASCII digit or letter names its own key; otherwise the Unicode lowercase of
/// the name is looked up among the known key names.
pub open spec fn key_name_to_vk_spec(name: Seq<char>) -> Option<u32> {
    let n = trim_seq(name);
    if n.len() == 0 {
        None
    } else if n.len() == 1 && (n[0] as u32) < 128 && single_char_vk_spec(n[0]) is Some {
        single_char_vk_spec(n[0])
    } else {
        vk_from_lowercase_spec(lowercase_of(n))
    }
}

/// The virtual key named by an already lowercased word.
pub fn vk_from_lowercase(l: &str) -> (r: Option<u32>)
    ensures
        r == vk_from_lowercase_spec(l@),
{
    if str_eq(l, "left") { Some(0x25) }
    else if str_eq(l, "up") { Some(0x26) }
    else if str_eq(l, "right") { Some(0x27) }
    else if str_eq(l, "down") { Some(0x28) }
    else if str_eq(l, "enter") { Some(0x0D) }
    else if str_eq(l, "delete") { Some(0x2E) }
    else if str_eq(l, "1") { Some(0x31) }
    else if str_eq(l, "2") { Some(0x32) }
    else if str_eq(l, "3") { Some(0x33) }
    else if str_eq(l, "4") { Some(0x34) }
    else if str_eq(l, "5") { Some(0x35) }
    else if str_eq(l, "6") { Some(0x36) }
    else if str_eq(l, "a") { Some(0x41) }
    else if str_eq(l, "b") { Some(0x42) }
    else if str_eq(l, "c") { Some(0x43) }
    else if str_eq(l, "d") { Some(0x44) }
    else if str_eq(l, "e") { Some(0x45) }
    else if str_eq(l, "f") { Some(0x46) }
    else if str_eq(l, "g") { Some(0x47) }
    else if str_eq(l, "h") { Some(0x48) }
    else if str_eq(l, "i") { Some(0x49) }
    else if str_eq(l, "j") { Some(0x4A) }
    else if str_eq(l, "k") { Some(0x4B) }
    else if str_eq(l, "n") { Some(0x4E) }
    else if str_eq(l, "p") { Some(0x50) }
    else if str_eq(l, "q") { Some(0x51) }
    else if str_eq(l, "r") { Some(0x52) }
    else if str_eq(l, "s") { Some(0x53) }
    else if str_eq(l, "t") { Some(0x54) }
    else if str_eq(l, "u") { Some(0x55) }
    else if str_eq(l, "w") { Some(0x57) }
    else { None }
}

fn single_char_vk(c: char) -> (r: Option<u32>)
    ensures
        r == single_char_vk_spec(c),
{
    if '0' <= c && c <= '9' {
        Some(0x30 + (c as u32 - '0' as u32))
    } else if 'A' <= c && c <= 'Z' {
        Some(0x41 + (c as u32 - 'A' as u32))
    } else if 'a' <= c && c <= 'z' {
        Some(0x41 + (c as u32 - 'a' as u32))
    } else {
        None
    }
}

/// The virtual key named by `name` (e.g. "Left", "a", "7", "Delete").
pub fn key_name_to_vk(name: &str) -> (r: Option<u32>)
    ensures
        r == key_name_to_vk_spec(name@),
{
    let all = chars_of(name);
    let n = trim(&all);
    if n.len() == 0 {
        return None;
    }
    if n.len() == 1 && (n[0] as u32) < 128 {
        let single = single_char_vk(n[0]);
        if single.is_some() {
            return single;
        }
    }
    let text = string_from_chars(&n);
    let lower = to_lowercase(text.as_str());
    vk_from_lowercase(lower.as_str())
}

// ---------------------------------------------------------------------------
// Formatting
// ---------------------------------------------------------------------------

/// "Win+", "Alt+", "Ctrl+", "Shift+" for the modifier flags set in `m`, in
/// that order.
pub open spec fn modifier_prefix(m: u32) -> Seq<char> {
    (if m & MOD_WIN != 0 { "Win+"@ } else { Seq::<char>::empty() })
        + (if m & MOD_ALT != 0 { "Alt+"@ } else { Seq::<char>::empty() })
        + (if m & MOD_CONTROL != 0 { "Ctrl+"@ } else { Seq::<char>::empty() })
        + (if m & MOD_SHIFT != 0 { "Shift+"@ } else { Seq::<char>::empty() })
}

/// The text of a shortcut: its modifier names and its key name, joined by '+'.
pub open spec fn format_shortcut_spec(m: u32, vk: u32) -> Seq<char> {
    modifier_prefix(m) + key_name_spec(vk)
}

/// Formats (modifiers, vk) as text such as "Win+Alt+Left".
pub fn format_shortcut(modifiers: u32, vk: u32) -> (s: String)
    ensures
        s@ == format_shortcut_spec(modifiers, vk),
{
    let mut s = String::new();
    let ghost p0 = s@;
    if (modifiers & MOD_WIN) != 0 {
        s.append("Win+");
    }
    let ghost p1 = s@;
    if (modifiers & MOD_ALT) != 0 {
        s.append("Alt+");
    }
    let ghost p2 = s@;
    if (modifiers & MOD_CONTROL) != 0 {
        s.append("Ctrl+");
    }
    let ghost p3 = s@;
    if (modifiers & MOD_SHIFT) != 0 {
        s.append("Shift+");
    }
    let key = vk_to_key_name(vk);
    s.append(key.as_str());
    assert(s@ =~= format_shortcut_spec(modifiers, vk));
    s
}

// ---------------------------------------------------------------------------
// Parsing
// ---------------------------------------------------------------------------

/// The trimmed pieces of `ps` that are not empty, in order.
pub open spec fn nonempty_trimmed(ps: Seq<Seq<char>>) -> Seq<Seq<char>>
    decreases ps.len(),
{
    if ps.len() == 0 {
        Seq::empty()
    } else {
        let rest = nonempty_trimmed(ps.drop_last());
        let t = trim_seq(ps.last());
        if t.len() == 0 {
            rest
        } else {
            rest.push(t)
        }
    }
}

/// The words of a shortcut text: the '+'-separated pieces, trimmed, empty ones
/// left out.
pub open spec fn shortcut_words(s: Seq<char>) -> Seq<Seq<char>> {
    nonempty_trimmed(split_seq(s, '+'))
}

/// The union of the modifier flags named by `words`, or `None` if one of them
/// names no modifier.
pub open spec fn modifiers_of(words: Seq<Seq<char>>) -> Option<u32>
    decreases words.len(),
{
    if words.len() == 0 {
        Some(0u32)
    } else {
        match (modifiers_of(words.drop_last()), parse_modifier_spec(words.last())) {
            (Some(m), Some(b)) => Some(m | b),
            _ => None,
        }
    }
}

/// The (modifiers, vk) pair a shortcut text names: the last word is the key,
/// the words before it are modifiers, and `MOD_NOREPEAT` is always added.
pub open spec fn try_parse_shortcut_spec(shortcut: Seq<char>) -> Option<(u32, u32)> {
    let t = trim_seq(shortcut);
    if t.len() == 0 {
        None
    } else {
        let words = shortcut_words(t);
        if words.len() == 0 {
            None
        } else {
            match (modifiers_of(words.drop_last()), key_name_to_vk_spec(words.last())) {
                (Some(m), Some(vk)) => Some((m | MOD_NOREPEAT, vk)),
                _ => None,
            }
        }
    }
}

/// The trimmed, non-empty pieces of `pieces`.
fn keep_nonempty_trimmed(pieces: &Vec<Vec<char>>) -> (r: Vec<Vec<char>>)
    ensures
        views(r@) == nonempty_trimmed(views(pieces@)),
{
    let mut r: Vec<Vec<char>> = Vec::new();
    let mut i: usize = 0;
    assert(views(pieces@).take(0) =~= Seq::<Seq<char>>::empty());
    while i < pieces.len()
        invariant
            i <= pieces@.len(),
            views(r@) == nonempty_trimmed(views(pieces@).take(i as int)),
        decreases pieces@.len() - i,
    {
        let t = trim(&pieces[i]);
        proof {
            assert(views(pieces@).take(i + 1).drop_last() =~= views(pieces@).take(i as int));
            assert(views(pieces@).take(i + 1).last() == pieces@[i as int]@);
        }
        if t.len() != 0 {
            r.push(t);
            assert(views(r@) =~= nonempty_trimmed(views(pieces@).take(i + 1)));
        }
        i = i + 1;
    }
    assert(views(pieces@).take(pieces@.len() as int) =~= views(pieces@));
    r
}

/// Parses shortcut text like "Win+Alt+Left" into (modifiers | MOD_NOREPEAT, vk).
/// Returns `None` when the text is blank, a modifier word is unknown, or the
/// key name is unknown.
pub fn try_parse_shortcut(shortcut: &str) -> (r: Option<(u32, u32)>)
    ensures
        r == try_parse_shortcut_spec(shortcut@),
{
    let all = chars_of(shortcut);
    let t = trim(&all);
    if t.len() == 0 {
        return None;
    }
    let pieces = split(&t, '+');
    let words = keep_nonempty_trimmed(&pieces);
    if words.len() == 0 {
        return None;
    }
    let n = words.len();
    let ghost ws = views(words@);
    let mut modifiers: u32 = 0;
    let mut i: usize = 0;
    assert(ws.drop_last().take(0) =~= Seq::<Seq<char>>::empty());
    while i < n - 1
        invariant
            n == words@.len(),
            n >= 1,
            ws == views(words@),
            ws == shortcut_words(trim_seq(shortcut@)),
            trim_seq(shortcut@).len() > 0,
            i <= n - 1,
            modifiers_of(ws.drop_last().take(i as int)) == Some(modifiers),
        decreases n - 1 - i,
    {
        let word = string_from_chars(&words[i]);
        proof {
            assert(ws.drop_last().take(i + 1).drop_last() =~= ws.drop_last().take(i as int));
            assert(ws.drop_last().take(i + 1).last() == words@[i as int]@);
        }
        match parse_modifier(word.as_str()) {
            Some(bit) => {
                modifiers = modifiers | bit;
            },
            None => {
                proof {
                    assert(modifiers_of(ws.drop_last().take(i + 1)) is None);
                    lemma_modifiers_of_none_prefix(ws.drop_last(), i as int + 1);
                }
                return None;
            },
        }
        i = i + 1;
    }
    assert(ws.drop_last().take((n - 1) as int) =~= ws.drop_last());
    let key = string_from_chars(&words[n - 1]);
    match key_name_to_vk(key.as_str()) {
        Some(vk) => Some((modifiers | MOD_NOREPEAT, vk)),
        None => None,
    }
}

/// Once a prefix of the words holds an unknown modifier, so does every longer
/// prefix.
proof fn lemma_modifiers_of_none_prefix(ws: Seq<Seq<char>>, k: int)
    requires
        0 <= k <= ws.len(),
        modifiers_of(ws.take(k)) is None,
    ensures
        modifiers_of(ws) is None,
    decreases ws.len() - k,
{
    if k < ws.len() {
        assert(ws.take(k + 1).drop_last() =~= ws.take(k));
        lemma_modifiers_of_none_prefix(ws, k + 1);
    } else {
        assert(ws.take(k) =~= ws);
    }
}


// ---------------------------------------------------------------------------
// Formatting then parsing
// ---------------------------------------------------------------------------

/// Printable ASCII other than space: no whitespace, nothing that case folding
/// beyond ASCII touches.
pub open spec fn plain_text(s: Seq<char>) -> bool {
    forall|i: int| 0 <= i < s.len() ==> 0x21 <= (#[trigger] s[i]) as u32 <= 0x7E
}

/// No character of `s` is `c`.
pub open spec fn lacks(s: Seq<char>, c: char) -> bool {
    forall|i: int| 0 <= i < s.len() ==> #[trigger] s[i] != c
}

proof fn lemma_plain_trim(s: Seq<char>)
    requires
        plain_text(s),
    ensures
        trim_seq(s) == s,
{
    if s.len() > 0 {
        assert(!crate::text::char_is_whitespace(s[0]));
        assert(trim_start_seq(s) == s);
        assert(!crate::text::char_is_whitespace(s.last()));
    }
}

proof fn lemma_split_join(a: Seq<char>, b: Seq<char>, sep: char)
    ensures
        split_seq(a + seq![sep] + b, sep) == split_seq(a, sep) + split_seq(b, sep),
    decreases b.len(),
{
    let x = a + seq![sep] + b;
    if b.len() == 0 {
        assert(x.drop_last() =~= a);
        assert(x.last() == sep);
        assert(split_seq(a, sep) + split_seq(b, sep) =~= split_seq(a, sep).push(Seq::<char>::empty()));
    } else {
        let b2 = b.drop_last();
        let c = b.last();
        lemma_split_join(a, b2, sep);
        lemma_split_nonempty(b2, sep);
        lemma_split_nonempty(a, sep);
        assert(x.drop_last() =~= a + seq![sep] + b2);
        assert(x.last() == c);
        let sa = split_seq(a, sep);
        let sb2 = split_seq(b2, sep);
        if c == sep {
            assert(split_seq(x, sep) =~= (sa + sb2).push(Seq::<char>::empty()));
            assert(split_seq(b, sep) =~= sb2.push(Seq::<char>::empty()));
            assert((sa + sb2).push(Seq::<char>::empty()) =~= sa + sb2.push(Seq::<char>::empty()));
        } else {
            let joined = sa + sb2;
            assert(split_seq(x, sep) == joined.update(joined.len() - 1, joined.last().push(c)));
            assert(split_seq(b, sep) == sb2.update(sb2.len() - 1, sb2.last().push(c)));
            assert(joined.update(joined.len() - 1, joined.last().push(c)) =~= sa + sb2.update(
                sb2.len() - 1,
                sb2.last().push(c),
            ));
        }
    }
}

proof fn lemma_split_without_sep(x: Seq<char>, sep: char)
    requires
        lacks(x, sep),
    ensures
        split_seq(x, sep) == seq![x],
    decreases x.len(),
{
    if x.len() == 0 {
        assert(x =~= Seq::<char>::empty());
    } else {
        let x2 = x.drop_last();
        assert(lacks(x2, sep));
        lemma_split_without_sep(x2, sep);
        assert(x2.push(x.last()) =~= x);
        assert(seq![x2].update(0, x2.push(x.last())) =~= seq![x]);
    }
}

/// The words of `ws`, each followed by '+'.
pub open spec fn concat_plus(ws: Seq<Seq<char>>) -> Seq<char>
    decreases ws.len(),
{
    if ws.len() == 0 {
        Seq::empty()
    } else {
        concat_plus(ws.drop_last()) + ws.last() + seq!['+']
    }
}

proof fn lemma_concat_plus_push(ws: Seq<Seq<char>>, w: Seq<char>)
    ensures
        concat_plus(ws.push(w)) == concat_plus(ws) + w + seq!['+'],
{
    assert(ws.push(w).drop_last() =~= ws);
}

proof fn lemma_split_concat_plus(ws: Seq<Seq<char>>, x: Seq<char>)
    requires
        forall|i: int| 0 <= i < ws.len() ==> lacks(#[trigger] ws[i], '+'),
        lacks(x, '+'),
    ensures
        split_seq(concat_plus(ws) + x, '+') == ws.push(x),
    decreases ws.len(),
{
    if ws.len() == 0 {
        assert(concat_plus(ws) + x =~= x);
        lemma_split_without_sep(x, '+');
        assert(ws.push(x) =~= seq![x]);
    } else {
        let w2 = ws.drop_last();
        let w = ws.last();
        assert forall|i: int| 0 <= i < w2.len() implies lacks(#[trigger] w2[i], '+') by {
            assert(w2[i] == ws[i]);
        }
        assert(lacks(w, '+')) by {
            assert(w == ws[ws.len() - 1]);
        }
        lemma_split_concat_plus(w2, w);
        assert(concat_plus(ws) + x =~= (concat_plus(w2) + w) + seq!['+'] + x);
        lemma_split_join(concat_plus(w2) + w, x, '+');
        lemma_split_without_sep(x, '+');
        assert(w2.push(w) =~= ws);
        assert(ws + seq![x] =~= ws.push(x));
    }
}

/// The names of the modifier flags set in `m`, in the order formatting writes
/// them.
pub open spec fn modifier_words(m: u32) -> Seq<Seq<char>> {
    let w0 = Seq::<Seq<char>>::empty();
    let w1 = if m & MOD_WIN != 0 { w0.push("Win"@) } else { w0 };
    let w2 = if m & MOD_ALT != 0 { w1.push("Alt"@) } else { w1 };
    let w3 = if m & MOD_CONTROL != 0 { w2.push("Ctrl"@) } else { w2 };
    if m & MOD_SHIFT != 0 { w3.push("Shift"@) } else { w3 }
}

proof fn lemma_modifier_literals()
    ensures
        "Win+"@ == "Win"@ + seq!['+'],
        "Alt+"@ == "Alt"@ + seq!['+'],
        "Ctrl+"@ == "Ctrl"@ + seq!['+'],
        "Shift+"@ == "Shift"@ + seq!['+'],
        plain_text("Win"@) && lacks("Win"@, '+'),
        plain_text("Alt"@) && lacks("Alt"@, '+'),
        plain_text("Ctrl"@) && lacks("Ctrl"@, '+'),
        plain_text("Shift"@) && lacks("Shift"@, '+'),
        parse_modifier_spec("Win"@) == Some(MOD_WIN),
        parse_modifier_spec("Alt"@) == Some(MOD_ALT),
        parse_modifier_spec("Ctrl"@) == Some(MOD_CONTROL),
        parse_modifier_spec("Shift"@) == Some(MOD_SHIFT),
{
    reveal_strlit("Win+");
    reveal_strlit("Alt+");
    reveal_strlit("Ctrl+");
    reveal_strlit("Shift+");
    reveal_strlit("Win");
    reveal_strlit("Alt");
    reveal_strlit("Ctrl");
    reveal_strlit("Shift");
    reveal_strlit("win");
    reveal_strlit("alt");
    reveal_strlit("ctrl");
    reveal_strlit("control");
    reveal_strlit("shift");
    assert("Win+"@ =~= "Win"@ + seq!['+']);
    assert("Alt+"@ =~= "Alt"@ + seq!['+']);
    assert("Ctrl+"@ =~= "Ctrl"@ + seq!['+']);
    assert("Shift+"@ =~= "Shift"@ + seq!['+']);
    assert("win"@.len() == 3 && "win"@[0] == 'w');
    assert("alt"@.len() == 3 && "alt"@[0] == 'a');
    assert("ctrl"@.len() == 4 && "ctrl"@[0] == 'c');
    assert("control"@.len() == 7 && "control"@[0] == 'c');
    assert("shift"@.len() == 5 && "shift"@[0] == 's');
    assert(ascii_lower_seq("Win"@) =~= "win"@);
    assert(ascii_lower_seq("Alt"@) =~= "alt"@);
    assert(ascii_lower_seq("Ctrl"@) =~= "ctrl"@);
    assert(ascii_lower_seq("Shift"@) =~= "shift"@);
}

proof fn lemma_modifier_bits(m: u32)
    ensures
        ({
            let a = if m & 8 != 0 { 0u32 | 8u32 } else { 0u32 };
            let b = if m & 1 != 0 { a | 1u32 } else { a };
            let c = if m & 2 != 0 { b | 2u32 } else { b };
            let d = if m & 4 != 0 { c | 4u32 } else { c };
            d == m & 15u32
        }),
{
    assert(({
        let a = if m & 8 != 0 { 0u32 | 8u32 } else { 0u32 };
        let b = if m & 1 != 0 { a | 1u32 } else { a };
        let c = if m & 2 != 0 { b | 2u32 } else { b };
        let d = if m & 4 != 0 { c | 4u32 } else { c };
        d == m & 15u32
    })) by (bit_vector);
}

proof fn lemma_modifiers_of_push(ws: Seq<Seq<char>>, w: Seq<char>)
    ensures
        modifiers_of(ws.push(w)) == (match (modifiers_of(ws), parse_modifier_spec(w)) {
            (Some(m), Some(b)) => Some(m | b),
            _ => None,
        }),
{
    assert(ws.push(w).drop_last() =~= ws);
}

/// The formatted modifier prefix is the modifier words each followed by '+',
/// and those words parse back to the low four flag bits of `m`.
proof fn lemma_modifier_words(m: u32)
    ensures
        modifier_prefix(m) == concat_plus(modifier_words(m)),
        modifiers_of(modifier_words(m)) == Some(m & 15u32),
        forall|i: int|
            0 <= i < modifier_words(m).len() ==> plain_text(#[trigger] modifier_words(m)[i])
                && lacks(modifier_words(m)[i], '+'),
{
    lemma_modifier_literals();
    lemma_modifier_bits(m);
    let e = Seq::<char>::empty();
    let w0 = Seq::<Seq<char>>::empty();
    let w1 = if m & MOD_WIN != 0 { w0.push("Win"@) } else { w0 };
    let w2 = if m & MOD_ALT != 0 { w1.push("Alt"@) } else { w1 };
    let w3 = if m & MOD_CONTROL != 0 { w2.push("Ctrl"@) } else { w2 };
    let w4 = if m & MOD_SHIFT != 0 { w3.push("Shift"@) } else { w3 };
    let p1 = if m & MOD_WIN != 0 { "Win+"@ } else { e };
    let p2 = if m & MOD_ALT != 0 { "Alt+"@ } else { e };
    let p3 = if m & MOD_CONTROL != 0 { "Ctrl+"@ } else { e };
    let p4 = if m & MOD_SHIFT != 0 { "Shift+"@ } else { e };
    lemma_concat_plus_push(w0, "Win"@);
    lemma_concat_plus_push(w1, "Alt"@);
    lemma_concat_plus_push(w2, "Ctrl"@);
    lemma_concat_plus_push(w3, "Shift"@);
    lemma_modifiers_of_push(w0, "Win"@);
    lemma_modifiers_of_push(w1, "Alt"@);
    lemma_modifiers_of_push(w2, "Ctrl"@);
    lemma_modifiers_of_push(w3, "Shift"@);
    assert(concat_plus(w0) =~= e);
    assert(concat_plus(w1) =~= p1);
    assert(concat_plus(w2) =~= p1 + p2);
    assert(concat_plus(w3) =~= p1 + p2 + p3);
    assert(concat_plus(w4) =~= p1 + p2 + p3 + p4);
    assert(modifier_prefix(m) =~= p1 + p2 + p3 + p4);
    assert(modifiers_of(w0) == Some(0u32));
}

/// Facts about the display name of one named key: it is plain text without
/// '+', and it parses back to the key.
pub open spec fn key_name_round_trips(vk: u32) -> bool {
    &&& plain_text(key_name_spec(vk))
    &&& lacks(key_name_spec(vk), '+')
    &&& key_name_spec(vk).len() > 0
    &&& key_name_to_vk_spec(key_name_spec(vk)) == Some(vk)
}

proof fn lemma_single_char_name(vk: u32, name: Seq<char>)
    requires
        key_name_spec(vk) == name,
        name.len() == 1,
        ('0' <= name[0] <= '9' && vk == 0x30 + (name[0] as u32 - '0' as u32)) || ('A' <= name[0]
            <= 'Z' && vk == 0x41 + (name[0] as u32 - 'A' as u32)),
    ensures
        key_name_round_trips(vk),
{
    lemma_plain_trim(name);
}

proof fn lemma_word_name(vk: u32, name: Seq<char>, lower: Seq<char>)
    requires
        key_name_spec(vk) == name,
        plain_text(name),
        lacks(name, '+'),
        name.len() > 1,
        ascii_lower_seq(name) == lower,
        vk_from_lowercase_spec(lower) == Some(vk),
    ensures
        key_name_round_trips(vk),
{
    lemma_plain_trim(name);
}

proof fn lemma_lowercase_key_literals()
    ensures
        "left"@.len() == 4 && "left"@[0] == 'l',
        "up"@.len() == 2 && "up"@[0] == 'u',
        "right"@.len() == 5 && "right"@[0] == 'r',
        "down"@.len() == 4 && "down"@[0] == 'd',
        "enter"@.len() == 5 && "enter"@[0] == 'e',
        "delete"@.len() == 6 && "delete"@[0] == 'd',
        "1"@.len() == 1 && "2"@.len() == 1 && "3"@.len() == 1,
        "4"@.len() == 1 && "5"@.len() == 1 && "6"@.len() == 1,
        "a"@.len() == 1 && "b"@.len() == 1 && "c"@.len() == 1,
        "d"@.len() == 1 && "e"@.len() == 1 && "f"@.len() == 1,
        "g"@.len() == 1 && "h"@.len() == 1 && "i"@.len() == 1,
        "j"@.len() == 1 && "k"@.len() == 1 && "n"@.len() == 1,
        "p"@.len() == 1 && "q"@.len() == 1 && "r"@.len() == 1,
        "s"@.len() == 1 && "t"@.len() == 1 && "u"@.len() == 1,
        "w"@.len() == 1,
{
    reveal_strlit("left");
    reveal_strlit("up");
    reveal_strlit("right");
    reveal_strlit("down");
    reveal_strlit("enter");
    reveal_strlit("delete");
    reveal_strlit("1");
    reveal_strlit("2");
    reveal_strlit("3");
    reveal_strlit("4");
    reveal_strlit("5");
    reveal_strlit("6");
    reveal_strlit("a");
    reveal_strlit("b");
    reveal_strlit("c");
    reveal_strlit("d");
    reveal_strlit("e");
    reveal_strlit("f");
    reveal_strlit("g");
    reveal_strlit("h");
    reveal_strlit("i");
    reveal_strlit("j");
    reveal_strlit("k");
    reveal_strlit("n");
    reveal_strlit("p");
    reveal_strlit("q");
    reveal_strlit("r");
    reveal_strlit("s");
    reveal_strlit("t");
    reveal_strlit("u");
    reveal_strlit("w");
}

/// Every named key's display name parses back to that key.
pub proof fn lemma_key_name_round_trip(vk: u32)
    requires
        is_named_key(vk),
    ensures
        key_name_round_trips(vk),
{
    lemma_lowercase_key_literals();
    if vk == 0x25 {
        reveal_strlit("Left");
        reveal_strlit("left");
        assert(ascii_lower_seq("Left"@) =~= "left"@);
        lemma_word_name(vk, "Left"@, "left"@);
    } else if vk == 0x26 {
        reveal_strlit("Up");
        reveal_strlit("up");
        assert(ascii_lower_seq("Up"@) =~= "up"@);
        lemma_word_name(vk, "Up"@, "up"@);
    } else if vk == 0x27 {
        reveal_strlit("Right");
        reveal_strlit("right");
        assert(ascii_lower_seq("Right"@) =~= "right"@);
        lemma_word_name(vk, "Right"@, "right"@);
    } else if vk == 0x28 {
        reveal_strlit("Down");
        reveal_strlit("down");
        assert(ascii_lower_seq("Down"@) =~= "down"@);
        lemma_word_name(vk, "Down"@, "down"@);
    } else if vk == 0x0D {
        reveal_strlit("Enter");
        reveal_strlit("enter");
        assert(ascii_lower_seq("Enter"@) =~= "enter"@);
        lemma_word_name(vk, "Enter"@, "enter"@);
    } else if vk == 0x2E {
        reveal_strlit("Delete");
        reveal_strlit("delete");
        assert(ascii_lower_seq("Delete"@) =~= "delete"@);
        lemma_word_name(vk, "Delete"@, "delete"@);
    }
    if vk == 0x30 {
        reveal_strlit("0");
        lemma_single_char_name(vk, "0"@);
    }
    if vk == 0x31 {
        reveal_strlit("1");
        lemma_single_char_name(vk, "1"@);
    }
    if vk == 0x32 {
        reveal_strlit("2");
        lemma_single_char_name(vk, "2"@);
    }
    if vk == 0x33 {
        reveal_strlit("3");
        lemma_single_char_name(vk, "3"@);
    }
    if vk == 0x34 {
        reveal_strlit("4");
        lemma_single_char_name(vk, "4"@);
    }
    if vk == 0x35 {
        reveal_strlit("5");
        lemma_single_char_name(vk, "5"@);
    }
    if vk == 0x36 {
        reveal_strlit("6");
        lemma_single_char_name(vk, "6"@);
    }
    if vk == 0x37 {
        reveal_strlit("7");
        lemma_single_char_name(vk, "7"@);
    }
    if vk == 0x38 {
        reveal_strlit("8");
        lemma_single_char_name(vk, "8"@);
    }
    if vk == 0x39 {
        reveal_strlit("9");
        lemma_single_char_name(vk, "9"@);
    }
    if vk == 0x41 {
        reveal_strlit("A");
        lemma_single_char_name(vk, "A"@);
    }
    if vk == 0x42 {
        reveal_strlit("B");
        lemma_single_char_name(vk, "B"@);
    }
    if vk == 0x43 {
        reveal_strlit("C");
        lemma_single_char_name(vk, "C"@);
    }
    if vk == 0x44 {
        reveal_strlit("D");
        lemma_single_char_name(vk, "D"@);
    }
    if vk == 0x45 {
        reveal_strlit("E");
        lemma_single_char_name(vk, "E"@);
    }
    if vk == 0x46 {
        reveal_strlit("F");
        lemma_single_char_name(vk, "F"@);
    }
    if vk == 0x47 {
        reveal_strlit("G");
        lemma_single_char_name(vk, "G"@);
    }
    if vk == 0x48 {
        reveal_strlit("H");
        lemma_single_char_name(vk, "H"@);
    }
    if vk == 0x49 {
        reveal_strlit("I");
        lemma_single_char_name(vk, "I"@);
    }
    if vk == 0x4a {
        reveal_strlit("J");
        lemma_single_char_name(vk, "J"@);
    }
    if vk == 0x4b {
        reveal_strlit("K");
        lemma_single_char_name(vk, "K"@);
    }
    if vk == 0x4e {
        reveal_strlit("N");
        lemma_single_char_name(vk, "N"@);
    }
    if vk == 0x50 {
        reveal_strlit("P");
        lemma_single_char_name(vk, "P"@);
    }
    if vk == 0x51 {
        reveal_strlit("Q");
        lemma_single_char_name(vk, "Q"@);
    }
    if vk == 0x52 {
        reveal_strlit("R");
        lemma_single_char_name(vk, "R"@);
    }
    if vk == 0x53 {
        reveal_strlit("S");
        lemma_single_char_name(vk, "S"@);
    }
    if vk == 0x54 {
        reveal_strlit("T");
        lemma_single_char_name(vk, "T"@);
    }
    if vk == 0x55 {
        reveal_strlit("U");
        lemma_single_char_name(vk, "U"@);
    }
    if vk == 0x57 {
        reveal_strlit("W");
        lemma_single_char_name(vk, "W"@);
    }
}

/// Formatting a shortcut and parsing the text again gives the key back, with
/// the four modifier flags of `m` and `MOD_NOREPEAT`.
pub proof fn lemma_format_then_parse(m: u32, vk: u32)
    requires
        is_named_key(vk),
    ensures
        try_parse_shortcut_spec(format_shortcut_spec(m, vk)) == Some(((m & 15u32) | MOD_NOREPEAT, vk)),
        trim_seq(format_shortcut_spec(m, vk)) == format_shortcut_spec(m, vk),
{
    lemma_key_name_round_trip(vk);
    lemma_modifier_words(m);
    let key = key_name_spec(vk);
    let ws = modifier_words(m);
    let s = format_shortcut_spec(m, vk);
    assert(s == concat_plus(ws) + key);
    lemma_split_concat_plus(ws, key);
    lemma_plain_concat_plus(ws);
    assert(plain_text(s));
    lemma_plain_trim(s);
    let words = ws.push(key);
    assert forall|i: int| 0 <= i < words.len() implies plain_text(#[trigger] words[i]) && words[i].len() > 0 by {
        if i < ws.len() {
            assert(words[i] == ws[i]);
            lemma_modifier_word_nonempty(m, i);
        }
    }
    lemma_nonempty_trimmed_plain(words);
    assert(shortcut_words(s) == words);
    assert(words.drop_last() =~= ws);
}

proof fn lemma_modifier_word_nonempty(m: u32, i: int)
    requires
        0 <= i < modifier_words(m).len(),
    ensures
        modifier_words(m)[i].len() > 0,
{
    reveal_strlit("Win");
    reveal_strlit("Alt");
    reveal_strlit("Ctrl");
    reveal_strlit("Shift");
}

proof fn lemma_plain_concat_plus(ws: Seq<Seq<char>>)
    requires
        forall|i: int| 0 <= i < ws.len() ==> plain_text(#[trigger] ws[i]),
    ensures
        plain_text(concat_plus(ws)),
    decreases ws.len(),
{
    if ws.len() > 0 {
        let w2 = ws.drop_last();
        assert forall|i: int| 0 <= i < w2.len() implies plain_text(#[trigger] w2[i]) by {
            assert(w2[i] == ws[i]);
        }
        lemma_plain_concat_plus(w2);
        assert(plain_text(ws[ws.len() - 1]));
        let r = concat_plus(ws);
        assert forall|i: int| 0 <= i < r.len() implies 0x21 <= (#[trigger] r[i]) as u32 <= 0x7E by {
            let a = concat_plus(w2);
            let b = ws.last();
            if i < a.len() {
                assert(r[i] == a[i]);
            } else if i < a.len() + b.len() {
                assert(r[i] == b[i - a.len()]);
            } else {
                assert(r[i] == '+');
            }
        }
    }
}

proof fn lemma_nonempty_trimmed_plain(ws: Seq<Seq<char>>)
    requires
        forall|i: int| 0 <= i < ws.len() ==> plain_text(#[trigger] ws[i]) && ws[i].len() > 0,
    ensures
        nonempty_trimmed(ws) == ws,
    decreases ws.len(),
{
    if ws.len() > 0 {
        let w2 = ws.drop_last();
        assert forall|i: int| 0 <= i < w2.len() implies plain_text(#[trigger] w2[i]) && w2[i].len() > 0 by {
            assert(w2[i] == ws[i]);
        }
        lemma_nonempty_trimmed_plain(w2);
        assert(plain_text(ws[ws.len() - 1]) && ws[ws.len() - 1].len() > 0);
        lemma_plain_trim(ws.last());
        assert(w2.push(ws.last()) =~= ws);
    }
}

// ---------------------------------------------------------------------------
// The flags of a parsed shortcut
// ---------------------------------------------------------------------------

proof fn lemma_modifiers_of_within(words: Seq<Seq<char>>)
    ensures
        modifiers_of(words) matches Some(m) ==> m & !15u32 == 0,
    decreases words.len(),
{
    if words.len() > 0 {
        lemma_modifiers_of_within(words.drop_last());
        match (modifiers_of(words.drop_last()), parse_modifier_spec(words.last())) {
            (Some(m), Some(b)) => {
                assert(b == 1 || b == 2 || b == 4 || b == 8);
                assert(m & !15u32 == 0 && (b == 1 || b == 2 || b == 4 || b == 8) ==> (m | b)
                    & !15u32 == 0) by (bit_vector);
            },
            _ => {},
        }
    } else {
        assert(0u32 & !15u32 == 0) by (bit_vector);
    }
}

/// Whatever the text, a parsed shortcut always carries `MOD_NOREPEAT` and no
/// flag besides it and the four modifier flags.
pub proof fn lemma_parsed_flags(s: Seq<char>)
    ensures
        try_parse_shortcut_spec(s) matches Some((m, v)) ==> m & MOD_NOREPEAT != 0 && m
            & !0x400Fu32 == 0,
{
    let t = trim_seq(s);
    let words = shortcut_words(t);
    if t.len() > 0 && words.len() > 0 {
        lemma_modifiers_of_within(words.drop_last());
        match modifiers_of(words.drop_last()) {
            Some(m) => {
                assert(m & !15u32 == 0 ==> (m | 0x4000u32) & 0x4000u32 != 0 && (m | 0x4000u32)
                    & !0x400Fu32 == 0) by (bit_vector);
            },
            None => {},
        }
    }
}

// ---------------------------------------------------------------------------
// Codes without a name
// ---------------------------------------------------------------------------

proof fn lemma_hex_plain(n: nat)
    ensures
        hex_upper_spec(n).len() > 0,
        forall|i: int|
            0 <= i < hex_upper_spec(n).len() ==> ('0' <= #[trigger] hex_upper_spec(n)[i] <= '9')
                || ('A' <= hex_upper_spec(n)[i] <= 'F'),
    decreases n,
{
    if n >= 16 {
        lemma_hex_plain(n / 16);
    }
}

/// The display name of a code without a name of its own: "0x" and hex digits,
/// plain text without '+', at least three characters, starting with '0'.
proof fn lemma_unnamed_key_name(vk: u32)
    requires
        !is_named_key(vk),
    ensures
        plain_text(key_name_spec(vk)),
        lacks(key_name_spec(vk), '+'),
        key_name_spec(vk).len() >= 3,
        key_name_spec(vk)[0] == '0',
{
    reveal_strlit("0x");
    let h = hex_upper_spec(vk as nat);
    lemma_hex_plain(vk as nat);
    let name = key_name_spec(vk);
    assert(name == "0x"@ + h);
    assert forall|i: int| 0 <= i < name.len() implies 0x21 <= (#[trigger] name[i]) as u32 <= 0x7E
        && name[i] != '+' by {
        if i >= 2 {
            assert(name[i] == h[i - 2]);
        }
    }
}

/// A display name of the "0x.." form names no key: such a code's text does
/// not parse back.
pub proof fn lemma_unnamed_key_does_not_parse(vk: u32)
    requires
        !is_named_key(vk),
    ensures
        key_name_to_vk_spec(key_name_spec(vk)) is None,
{
    lemma_unnamed_key_name(vk);
    lemma_lowercase_key_literals();
    let name = key_name_spec(vk);
    lemma_plain_trim(name);
    let l = ascii_lower_seq(name);
    assert(l.len() == name.len());
    assert(l[0] == '0');
    assert(lowercase_of(name) == l);
    reveal_strlit("left");
    reveal_strlit("right");
    reveal_strlit("down");
    reveal_strlit("enter");
    reveal_strlit("delete");
    assert(vk_from_lowercase_spec(l) is None);
}

/// A key name parses back to its code exactly when the code has a name of its
/// own; the "0x.." fallback is not parsed.
pub proof fn lemma_key_name_parses_back_iff_named(vk: u32)
    ensures
        key_name_to_vk_spec(key_name_spec(vk)) == (if is_named_key(vk) {
            Some(vk)
        } else {
            None::<u32>
        }),
{
    if is_named_key(vk) {
        lemma_key_name_round_trip(vk);
    } else {
        lemma_unnamed_key_does_not_parse(vk);
    }
}

/// The parser only ever yields a named code or a letter key (the letters
/// without a display name of their own, L, M, O, V, X, Y and Z, are accepted
/// as single characters).
pub proof fn lemma_parsed_keys(name: Seq<char>)
    ensures
        key_name_to_vk_spec(name) matches Some(v) ==> is_named_key(v) || 0x41 <= v <= 0x5A,
{
}

/// A formatted shortcut parses back exactly when its key has a name of its
/// own: to the key with the four modifier flags and `MOD_NOREPEAT`, and to
/// nothing for a key shown as "0x..".
pub proof fn lemma_format_then_parse_iff_named(m: u32, vk: u32)
    ensures
        try_parse_shortcut_spec(format_shortcut_spec(m, vk)) == (if is_named_key(vk) {
            Some(((m & 15u32) | MOD_NOREPEAT, vk))
        } else {
            None::<(u32, u32)>
        }),
{
    if is_named_key(vk) {
        lemma_format_then_parse(m, vk);
    } else {
        lemma_unnamed_key_name(vk);
        lemma_unnamed_key_does_not_parse(vk);
        lemma_modifier_words(m);
        let key = key_name_spec(vk);
        let ws = modifier_words(m);
        let s = format_shortcut_spec(m, vk);
        assert(s == concat_plus(ws) + key);
        lemma_split_concat_plus(ws, key);
        lemma_plain_concat_plus(ws);
        assert(plain_text(s));
        lemma_plain_trim(s);
        let words = ws.push(key);
        assert forall|i: int| 0 <= i < words.len() implies plain_text(#[trigger] words[i])
            && words[i].len() > 0 by {
            if i < ws.len() {
                assert(words[i] == ws[i]);
                lemma_modifier_word_nonempty(m, i);
            }
        }
        lemma_nonempty_trimmed_plain(words);
        assert(shortcut_words(s) == words);
        assert(words.last() == key);
    }
}

// ---------------------------------------------------------------------------
// Shortcut text for the global-shortcut plugin
// ---------------------------------------------------------------------------

/// The plugin's spelling of a shortcut: "Win+" becomes "Super+", then any
/// remaining "Win" becomes "Super".
pub open spec fn plugin_format_spec(s: Seq<char>) -> Seq<char> {
    replace_seq(replace_seq(s, "Win+"@, "Super+"@), "Win"@, "Super"@)
}

/// Rewrites shortcut text into the spelling the global-shortcut plugin expects.
pub fn shortcut_to_plugin_format(s: &str) -> (r: String)
    ensures
        r@ == plugin_format_spec(s@),
{
    let v = chars_of(s);
    let win_plus = chars_of("Win+");
    let super_plus = chars_of("Super+");
    let win = chars_of("Win");
    let super_ = chars_of("Super");
    proof {
        reveal_strlit("Win+");
        reveal_strlit("Win");
    }
    let once = replace(&v, &win_plus, &super_plus);
    let twice = replace(&once, &win, &super_);
    string_from_chars(&twice)
}

/// The display names of the named keys: the arrows, Enter, Delete, the digits
/// and the letters A to K, N, P to U and W, each by its usual name.
pub proof fn lemma_key_names()
    ensures
        key_name_spec(0x25u32) == "Left"@,
        key_name_spec(0x26u32) == "Up"@,
        key_name_spec(0x27u32) == "Right"@,
        key_name_spec(0x28u32) == "Down"@,
        key_name_spec(0x0Du32) == "Enter"@,
        key_name_spec(0x2Eu32) == "Delete"@,
        key_name_spec(0x30u32) == "0"@,
        key_name_spec(0x31u32) == "1"@,
        key_name_spec(0x32u32) == "2"@,
        key_name_spec(0x33u32) == "3"@,
        key_name_spec(0x34u32) == "4"@,
        key_name_spec(0x35u32) == "5"@,
        key_name_spec(0x36u32) == "6"@,
        key_name_spec(0x37u32) == "7"@,
        key_name_spec(0x38u32) == "8"@,
        key_name_spec(0x39u32) == "9"@,
        key_name_spec(0x41u32) == "A"@,
        key_name_spec(0x42u32) == "B"@,
        key_name_spec(0x43u32) == "C"@,
        key_name_spec(0x44u32) == "D"@,
        key_name_spec(0x45u32) == "E"@,
        key_name_spec(0x46u32) == "F"@,
        key_name_spec(0x47u32) == "G"@,
        key_name_spec(0x48u32) == "H"@,
        key_name_spec(0x49u32) == "I"@,
        key_name_spec(0x4Au32) == "J"@,
        key_name_spec(0x4Bu32) == "K"@,
        key_name_spec(0x4Eu32) == "N"@,
        key_name_spec(0x50u32) == "P"@,
        key_name_spec(0x51u32) == "Q"@,
        key_name_spec(0x52u32) == "R"@,
        key_name_spec(0x53u32) == "S"@,
        key_name_spec(0x54u32) == "T"@,
        key_name_spec(0x55u32) == "U"@,
        key_name_spec(0x57u32) == "W"@,
{
}

/// A shortcut is written as its modifier names in the fixed order Win (flag
/// 8), Alt (1), Ctrl (2), Shift (4), each followed by '+', then the key name;
/// other flags are not written.
pub proof fn lemma_format_layout(m: u32, vk: u32)
    ensures
        format_shortcut_spec(m, vk) == (if m & 8u32 != 0 { "Win+"@ } else { Seq::<char>::empty() })
            + (if m & 1u32 != 0 { "Alt+"@ } else { Seq::<char>::empty() })
            + (if m & 2u32 != 0 { "Ctrl+"@ } else { Seq::<char>::empty() })
            + (if m & 4u32 != 0 { "Shift+"@ } else { Seq::<char>::empty() }) + key_name_spec(vk),
{
}

/// The modifier words, compared after lowercasing: "win" is Win (8), "alt" is
/// Alt (1), "ctrl" and "control" are Ctrl (2), "shift" is Shift (4), and no
/// other word is a modifier.
pub proof fn lemma_modifier_names(l: Seq<char>)
    ensures
        modifier_from_lowercase_spec(l) == (if l == "win"@ {
            Some(8u32)
        } else if l == "alt"@ {
            Some(1u32)
        } else if l == "ctrl"@ || l == "control"@ {
            Some(2u32)
        } else if l == "shift"@ {
            Some(4u32)
        } else {
            None
        }),
{
}

/// The value of an upper-case hexadecimal digit.
pub open spec fn hex_digit_value(d: char) -> int {
    if '0' <= d <= '9' {
        d as int - '0' as int
    } else {
        d as int - 'A' as int + 10
    }
}

/// The number that a sequence of hexadecimal digits writes, most significant
/// digit first.
pub open spec fn hex_number(s: Seq<char>) -> int
    decreases s.len(),
{
    if s.len() == 0 {
        0
    } else {
        hex_number(s.drop_last()) * 16 + hex_digit_value(s.last())
    }
}

/// The hexadecimal text of a number is made of the digits 0-9 and A-F, reads
/// back as the number, and has no leading zero (zero is written "0").
pub proof fn lemma_hex_reads_back(n: nat)
    ensures
        hex_upper_spec(n).len() > 0,
        forall|i: int|
            0 <= i < hex_upper_spec(n).len() ==> ('0' <= #[trigger] hex_upper_spec(n)[i] <= '9')
                || ('A' <= hex_upper_spec(n)[i] <= 'F'),
        hex_number(hex_upper_spec(n)) == n,
        n > 0 ==> hex_upper_spec(n)[0] != '0',
        n == 0 ==> hex_upper_spec(n) == seq!['0'],
    decreases n,
{
    lemma_hex_plain(n);
    if n < 16 {
        let d = hex_digit(n);
        assert(hex_upper_spec(n) == seq![d]);
        assert(seq![d].drop_last() =~= Seq::<char>::empty());
        assert(hex_number(Seq::<char>::empty()) == 0);
        assert(hex_digit_value(d) == n);
        assert(hex_number(seq![d]) == hex_number(seq![d].drop_last()) * 16 + hex_digit_value(d));
    } else {
        lemma_hex_reads_back(n / 16);
        let p = hex_upper_spec(n / 16);
        let d = hex_digit(n % 16);
        assert(hex_upper_spec(n) == p.push(d));
        assert(p.push(d).drop_last() =~= p);
        assert(hex_digit_value(d) == n % 16);
        assert(p.push(d)[0] == p[0]);
        assert(hex_number(p.push(d)) == hex_number(p) * 16 + hex_digit_value(d));
        assert((n / 16) * 16 + n % 16 == n) by (nonlinear_arith);
    }
}

/// A code without a name is shown as "0x" followed by its hexadecimal digits,
/// which read back as the code.
pub proof fn lemma_unnamed_key_shows_code(vk: u32)
    requires
        !is_named_key(vk),
    ensures
        key_name_spec(vk).subrange(0, 2) == "0x"@,
        hex_number(key_name_spec(vk).subrange(2, key_name_spec(vk).len() as int)) == vk,
{
    reveal_strlit("0x");
    lemma_hex_reads_back(vk as nat);
    let h = hex_upper_spec(vk as nat);
    assert(key_name_spec(vk).subrange(0, 2) =~= "0x"@);
    assert(key_name_spec(vk).subrange(2, key_name_spec(vk).len() as int) =~= h);
}

} // verus!
