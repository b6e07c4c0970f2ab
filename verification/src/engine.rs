//! Window layout calculations: halves, quarters, sections (thirds, fourths,
//! fifths), centre and maximise, each computed from the work area of a display.

use vstd::prelude::*;
use crate::rect::{EngineRect, fits_i32};
use crate::text::{str_eq, eq_ignore_ascii_case, eq_ignore_ascii_case_spec};

verus! {

/// The actions a hotkey can trigger.
#[derive(Clone, Copy, Debug, PartialEq, Eq, Structural)]
pub enum WindowAction {
    LeftHalf,
    RightHalf,
    TopHalf,
    BottomHalf,
    Maximize,
    Center,
    Undo,
    LowerLeft,
    LowerRight,
    UpperLeft,
    UpperRight,
    NextDisplay,
    PreviousDisplay,
    /// The left section.
    FirstThird,
    /// The left and centre sections.
    FirstTwoThirds,
    /// The centre section.
    CenterThird,
    /// The centre and right sections.
    LastTwoThirds,
    /// The right section.
    LastThird,
}

/// The configuration name of each action.
pub open spec fn action_name_spec(a: WindowAction) -> Seq<char> {
    match a {
        WindowAction::LeftHalf => "LeftHalf"@,
        WindowAction::RightHalf => "RightHalf"@,
        WindowAction::TopHalf => "TopHalf"@,
        WindowAction::BottomHalf => "BottomHalf"@,
        WindowAction::Maximize => "Maximize"@,
        WindowAction::Center => "Center"@,
        WindowAction::Undo => "Undo"@,
        WindowAction::LowerLeft => "LowerLeft"@,
        WindowAction::LowerRight => "LowerRight"@,
        WindowAction::UpperLeft => "UpperLeft"@,
        WindowAction::UpperRight => "UpperRight"@,
        WindowAction::NextDisplay => "NextDisplay"@,
        WindowAction::PreviousDisplay => "PreviousDisplay"@,
        WindowAction::FirstThird => "FirstThird"@,
        WindowAction::FirstTwoThirds => "FirstTwoThirds"@,
        WindowAction::CenterThird => "CenterThird"@,
        WindowAction::LastTwoThirds => "LastTwoThirds"@,
        WindowAction::LastThird => "LastThird"@,
    }
}

/// The action a configuration name denotes ("Restore" is another name for
/// `Undo`); names are matched exactly.
pub open spec fn action_from_name_spec(s: Seq<char>) -> Option<WindowAction> {
    if s == "LeftHalf"@ { Some(WindowAction::LeftHalf) }
    else if s == "RightHalf"@ { Some(WindowAction::RightHalf) }
    else if s == "TopHalf"@ { Some(WindowAction::TopHalf) }
    else if s == "BottomHalf"@ { Some(WindowAction::BottomHalf) }
    else if s == "Maximize"@ { Some(WindowAction::Maximize) }
    else if s == "Center"@ { Some(WindowAction::Center) }
    else if s == "Undo"@ || s == "Restore"@ { Some(WindowAction::Undo) }
    else if s == "LowerLeft"@ { Some(WindowAction::LowerLeft) }
    else if s == "LowerRight"@ { Some(WindowAction::LowerRight) }
    else if s == "UpperLeft"@ { Some(WindowAction::UpperLeft) }
    else if s == "UpperRight"@ { Some(WindowAction::UpperRight) }
    else if s == "NextDisplay"@ { Some(WindowAction::NextDisplay) }
    else if s == "PreviousDisplay"@ { Some(WindowAction::PreviousDisplay) }
    else if s == "FirstThird"@ { Some(WindowAction::FirstThird) }
    else if s == "FirstTwoThirds"@ { Some(WindowAction::FirstTwoThirds) }
    else if s == "CenterThird"@ { Some(WindowAction::CenterThird) }
    else if s == "LastTwoThirds"@ { Some(WindowAction::LastTwoThirds) }
    else if s == "LastThird"@ { Some(WindowAction::LastThird) }
    else { None }
}

/// The actions the layout engine computes a rectangle for.
pub open spec fn has_calculation_spec(a: WindowAction) -> bool {
    !(a == WindowAction::Undo || a == WindowAction::NextDisplay || a == WindowAction::PreviousDisplay)
}

/// The five section actions.
pub open spec fn is_section_action_spec(a: WindowAction) -> bool {
    a == WindowAction::FirstThird || a == WindowAction::FirstTwoThirds || a == WindowAction::CenterThird
        || a == WindowAction::LastTwoThirds || a == WindowAction::LastThird
}

impl WindowAction {
    /// The action named `s` ("Restore" also names `Undo`), or `None`.
    pub fn from_str(s: &str) -> (r: Option<Self>)
        ensures
            r == action_from_name_spec(s@),
    {
        if str_eq(s, "LeftHalf") { Some(WindowAction::LeftHalf) }
        else if str_eq(s, "RightHalf") { Some(WindowAction::RightHalf) }
        else if str_eq(s, "TopHalf") { Some(WindowAction::TopHalf) }
        else if str_eq(s, "BottomHalf") { Some(WindowAction::BottomHalf) }
        else if str_eq(s, "Maximize") { Some(WindowAction::Maximize) }
        else if str_eq(s, "Center") { Some(WindowAction::Center) }
        else if str_eq(s, "Undo") || str_eq(s, "Restore") { Some(WindowAction::Undo) }
        else if str_eq(s, "LowerLeft") { Some(WindowAction::LowerLeft) }
        else if str_eq(s, "LowerRight") { Some(WindowAction::LowerRight) }
        else if str_eq(s, "UpperLeft") { Some(WindowAction::UpperLeft) }
        else if str_eq(s, "UpperRight") { Some(WindowAction::UpperRight) }
        else if str_eq(s, "NextDisplay") { Some(WindowAction::NextDisplay) }
        else if str_eq(s, "PreviousDisplay") { Some(WindowAction::PreviousDisplay) }
        else if str_eq(s, "FirstThird") { Some(WindowAction::FirstThird) }
        else if str_eq(s, "FirstTwoThirds") { Some(WindowAction::FirstTwoThirds) }
        else if str_eq(s, "CenterThird") { Some(WindowAction::CenterThird) }
        else if str_eq(s, "LastTwoThirds") { Some(WindowAction::LastTwoThirds) }
        else if str_eq(s, "LastThird") { Some(WindowAction::LastThird) }
        else { None }
    }

    /// The configuration name of the action.
    pub fn name(&self) -> (r: &'static str)
        ensures
            r@ == action_name_spec(*self),
    {
        match self {
            WindowAction::LeftHalf => "LeftHalf",
            WindowAction::RightHalf => "RightHalf",
            WindowAction::TopHalf => "TopHalf",
            WindowAction::BottomHalf => "BottomHalf",
            WindowAction::Maximize => "Maximize",
            WindowAction::Center => "Center",
            WindowAction::Undo => "Undo",
            WindowAction::LowerLeft => "LowerLeft",
            WindowAction::LowerRight => "LowerRight",
            WindowAction::UpperLeft => "UpperLeft",
            WindowAction::UpperRight => "UpperRight",
            WindowAction::NextDisplay => "NextDisplay",
            WindowAction::PreviousDisplay => "PreviousDisplay",
            WindowAction::FirstThird => "FirstThird",
            WindowAction::FirstTwoThirds => "FirstTwoThirds",
            WindowAction::CenterThird => "CenterThird",
            WindowAction::LastTwoThirds => "LastTwoThirds",
            WindowAction::LastThird => "LastThird",
        }
    }

    /// False exactly for `Undo`, `NextDisplay` and `PreviousDisplay`.
    pub fn has_calculation(&self) -> (r: bool)
        ensures
            r == has_calculation_spec(*self),
    {
        !(*self == WindowAction::Undo || *self == WindowAction::NextDisplay
            || *self == WindowAction::PreviousDisplay)
    }

    /// True for the five section actions (left, left two, centre, right two,
    /// right).
    pub fn is_section_action(&self) -> (r: bool)
        ensures
            r == is_section_action_spec(*self),
    {
        match self {
            WindowAction::FirstThird | WindowAction::FirstTwoThirds | WindowAction::CenterThird
            | WindowAction::LastTwoThirds | WindowAction::LastThird => true,
            _ => false,
        }
    }
}

/// Parameters of one layout calculation.
#[derive(Clone, Debug)]
pub struct CalculationParams {
    pub window_rect: EngineRect,
    pub work_area: EngineRect,
    pub action: WindowAction,
    pub last_action: Option<LastActionInfo>,
    pub thirds_layout_mode: String,
}

/// The last action applied to a window and the rectangle it produced.
#[derive(Clone, Copy, Debug)]
pub struct LastActionInfo {
    pub rect: EngineRect,
    pub action: WindowAction,
}

/// A computed target rectangle and the action it carries out.
#[derive(Clone, Copy, Debug)]
pub struct CalculationResult {
    pub rect: EngineRect,
    pub resulting_action: WindowAction,
}

/// Widths of the left, centre and right sections for a layout mode: Fifths
/// 1|3|1, Fourths 1|2|1, anything else (Thirds) 1|1|1. The mode is compared
/// without regard to ASCII case.
pub open spec fn section_ratios_spec(mode: Seq<char>) -> (int, int, int) {
    if eq_ignore_ascii_case_spec(mode, "Fifths"@) {
        (1, 3, 1)
    } else if eq_ignore_ascii_case_spec(mode, "Fourths"@) {
        (1, 2, 1)
    } else {
        (1, 1, 1)
    }
}

/// Section widths (left, centre, right) for a layout mode.
pub fn section_ratios(mode: &str) -> (r: (i32, i32, i32))
    ensures
        (r.0 as int, r.1 as int, r.2 as int) == section_ratios_spec(mode@),
{
    if eq_ignore_ascii_case(mode, "Fifths") {
        (1, 3, 1)
    } else if eq_ignore_ascii_case(mode, "Fourths") {
        (1, 2, 1)
    } else {
        (1, 1, 1)
    }
}

/// Integer division rounding towards zero, as Rust's `/` does (for `b > 0`).
pub open spec fn tdiv(a: int, b: int) -> int {
    if a >= 0 {
        a / b
    } else {
        -((-a) / b)
    }
}

/// A rectangle from integer coordinates.
pub open spec fn erect(left: int, top: int, right: int, bottom: int) -> EngineRect {
    EngineRect { left: left as i32, top: top as i32, right: right as i32, bottom: bottom as i32 }
}

/// The rectangle an action places a window in, given the window's current
/// rectangle, the work area and the section widths; `None` for the actions the
/// engine does not compute (Undo, NextDisplay, PreviousDisplay).
pub open spec fn calculate_spec(
    win: EngineRect,
    w: EngineRect,
    action: WindowAction,
    ratios: (int, int, int),
) -> Option<EngineRect> {
    let width = w.right - w.left;
    let height = w.bottom - w.top;
    let mid_x = w.left + tdiv(width, 2);
    let mid_y = w.top + tdiv(height, 2);
    let (l, c, r) = ratios;
    let total = l + c + r;
    let cut1 = w.left + tdiv(width * l, total);
    let cut2 = w.left + tdiv(width * (l + c), total);
    match action {
        WindowAction::LeftHalf => Some(erect(w.left as int, w.top as int, mid_x, w.bottom as int)),
        WindowAction::RightHalf => Some(erect(mid_x, w.top as int, w.right as int, w.bottom as int)),
        WindowAction::TopHalf => Some(erect(w.left as int, w.top as int, w.right as int, mid_y)),
        WindowAction::BottomHalf => Some(erect(w.left as int, mid_y, w.right as int, w.bottom as int)),
        WindowAction::Maximize => Some(w),
        WindowAction::Center => {
            let ww = win.right - win.left;
            let wh = win.bottom - win.top;
            let x = w.left + tdiv(width - ww, 2);
            let y = w.top + tdiv(height - wh, 2);
            Some(erect(x, y, x + ww, y + wh))
        },
        WindowAction::UpperLeft => Some(erect(w.left as int, w.top as int, mid_x, mid_y)),
        WindowAction::UpperRight => Some(erect(mid_x, w.top as int, w.right as int, mid_y)),
        WindowAction::LowerLeft => Some(erect(w.left as int, mid_y, mid_x, w.bottom as int)),
        WindowAction::LowerRight => Some(erect(mid_x, mid_y, w.right as int, w.bottom as int)),
        WindowAction::FirstThird => Some(erect(w.left as int, w.top as int, cut1, w.bottom as int)),
        WindowAction::FirstTwoThirds => Some(erect(w.left as int, w.top as int, cut2, w.bottom as int)),
        WindowAction::CenterThird => Some(erect(cut1, w.top as int, cut2, w.bottom as int)),
        WindowAction::LastTwoThirds => Some(erect(cut1, w.top as int, w.right as int, w.bottom as int)),
        WindowAction::LastThird => Some(erect(cut2, w.top as int, w.right as int, w.bottom as int)),
        WindowAction::Undo | WindowAction::NextDisplay | WindowAction::PreviousDisplay => None,
    }
}

/// The rectangle of a calculation result, if there is one.
pub open spec fn result_rect(res: Option<CalculationResult>) -> Option<EngineRect> {
    match res {
        Some(r) => Some(r.rect),
        None => None,
    }
}

/// The calculation's arithmetic stays within `i32` for these parameters (as
/// the engine needs it: the work area's width and height always, the window's
/// placement for `Center`, and the scaled width for the sections that use the
/// second cut).
pub open spec fn calculation_fits(p: CalculationParams) -> bool {
    let w = p.work_area;
    let win = p.window_rect;
    let width = w.right - w.left;
    let height = w.bottom - w.top;
    let (l, c, r) = section_ratios_spec(p.thirds_layout_mode@);
    &&& fits_i32(width)
    &&& fits_i32(height)
    &&& (p.action == WindowAction::Center ==> {
        let ww = win.right - win.left;
        let wh = win.bottom - win.top;
        let x = w.left + tdiv(width - ww, 2);
        let y = w.top + tdiv(height - wh, 2);
        &&& fits_i32(ww) && fits_i32(wh)
        &&& fits_i32(width - ww) && fits_i32(height - wh)
        &&& fits_i32(x) && fits_i32(y)
        &&& fits_i32(x + ww) && fits_i32(y + wh)
    })
    &&& ((p.action == WindowAction::FirstTwoThirds || p.action == WindowAction::CenterThird
        || p.action == WindowAction::LastThird) ==> fits_i32(width * (l + c)))
}

proof fn lemma_half_within(lo: int, hi: int)
    requires
        fits_i32(lo),
        fits_i32(hi),
        fits_i32(hi - lo),
    ensures
        fits_i32(lo + tdiv(hi - lo, 2)),
{
}

proof fn lemma_cut_within(lo: int, hi: int, k: int, total: int)
    requires
        fits_i32(lo),
        fits_i32(hi),
        fits_i32(hi - lo),
        1 <= k < total,
        total <= 5,
    ensures
        (lo <= hi ==> lo <= lo + tdiv((hi - lo) * k, total) <= hi),
        (hi < lo ==> hi <= lo + tdiv((hi - lo) * k, total) <= lo),
{
    let width = hi - lo;
    if width >= 0 {
        assert(0 <= width * k <= width * total) by (nonlinear_arith)
            requires
                width >= 0,
                1 <= k < total,
        ;
        assert(0 <= (width * k) / total <= width) by (nonlinear_arith)
            requires
                0 <= width * k <= width * total,
                total >= 2,
        ;
    } else {
        assert(0 <= (-width) * k <= (-width) * total) by (nonlinear_arith)
            requires
                width < 0,
                1 <= k < total,
        ;
        assert(width * k == -((-width) * k)) by (nonlinear_arith);
        assert(0 <= ((-width) * k) / total <= -width) by (nonlinear_arith)
            requires
                0 <= (-width) * k <= (-width) * total,
                total >= 2,
        ;
    }
}

/// Computes the target rectangle for `params.action`; `None` for Undo,
/// NextDisplay and PreviousDisplay.
pub fn calculate(params: &CalculationParams) -> (res: Option<CalculationResult>)
    requires
        calculation_fits(*params),
    ensures
        res matches Some(r) ==> r.resulting_action == params.action,
        result_rect(res) == calculate_spec(
            params.window_rect,
            params.work_area,
            params.action,
            section_ratios_spec(params.thirds_layout_mode@),
        ),
{
    let w = &params.work_area;
    let width = w.width();
    let height = w.height();
    let ghost ratios = section_ratios_spec(params.thirds_layout_mode@);
    proof {
        lemma_half_within(w.left as int, w.right as int);
        lemma_half_within(w.top as int, w.bottom as int);
    }
    let rect = match params.action {
        WindowAction::LeftHalf => EngineRect {
            left: w.left,
            top: w.top,
            right: w.left + width / 2,
            bottom: w.bottom,
        },
        WindowAction::RightHalf => EngineRect {
            left: w.left + width / 2,
            top: w.top,
            right: w.right,
            bottom: w.bottom,
        },
        WindowAction::TopHalf => EngineRect {
            left: w.left,
            top: w.top,
            right: w.right,
            bottom: w.top + height / 2,
        },
        WindowAction::BottomHalf => EngineRect {
            left: w.left,
            top: w.top + height / 2,
            right: w.right,
            bottom: w.bottom,
        },
        WindowAction::Maximize => *w,
        WindowAction::Center => {
            let win = &params.window_rect;
            let x = w.left + (width - win.width()) / 2;
            let y = w.top + (height - win.height()) / 2;
            EngineRect { left: x, top: y, right: x + win.width(), bottom: y + win.height() }
        },
        WindowAction::UpperLeft => EngineRect {
            left: w.left,
            top: w.top,
            right: w.left + width / 2,
            bottom: w.top + height / 2,
        },
        WindowAction::UpperRight => EngineRect {
            left: w.left + width / 2,
            top: w.top,
            right: w.right,
            bottom: w.top + height / 2,
        },
        WindowAction::LowerLeft => EngineRect {
            left: w.left,
            top: w.top + height / 2,
            right: w.left + width / 2,
            bottom: w.bottom,
        },
        WindowAction::LowerRight => EngineRect {
            left: w.left + width / 2,
            top: w.top + height / 2,
            right: w.right,
            bottom: w.bottom,
        },
        WindowAction::FirstThird => {
            let (l, c, r) = section_ratios(params.thirds_layout_mode.as_str());
            let total = l + c + r;
            proof {
                lemma_cut_within(w.left as int, w.right as int, l as int, total as int);
            }
            let right_x = w.left + (width * l) / total;
            EngineRect { left: w.left, top: w.top, right: right_x, bottom: w.bottom }
        },
        WindowAction::FirstTwoThirds => {
            let (l, c, r) = section_ratios(params.thirds_layout_mode.as_str());
            let total = l + c + r;
            proof {
                lemma_cut_within(w.left as int, w.right as int, (l + c) as int, total as int);
            }
            let right_x = w.left + (width * (l + c)) / total;
            EngineRect { left: w.left, top: w.top, right: right_x, bottom: w.bottom }
        },
        WindowAction::CenterThird => {
            let (l, c, r) = section_ratios(params.thirds_layout_mode.as_str());
            let total = l + c + r;
            proof {
                lemma_cut_within(w.left as int, w.right as int, l as int, total as int);
                lemma_cut_within(w.left as int, w.right as int, (l + c) as int, total as int);
            }
            let left_x = w.left + (width * l) / total;
            let right_x = w.left + (width * (l + c)) / total;
            EngineRect { left: left_x, top: w.top, right: right_x, bottom: w.bottom }
        },
        WindowAction::LastTwoThirds => {
            let (l, c, r) = section_ratios(params.thirds_layout_mode.as_str());
            let total = l + c + r;
            proof {
                lemma_cut_within(w.left as int, w.right as int, l as int, total as int);
            }
            let left_x = w.left + (width * l) / total;
            EngineRect { left: left_x, top: w.top, right: w.right, bottom: w.bottom }
        },
        WindowAction::LastThird => {
            let (l, c, r) = section_ratios(params.thirds_layout_mode.as_str());
            let total = l + c + r;
            proof {
                lemma_cut_within(w.left as int, w.right as int, (l + c) as int, total as int);
            }
            let left_x = w.left + (width * (l + c)) / total;
            EngineRect { left: left_x, top: w.top, right: w.right, bottom: w.bottom }
        },
        WindowAction::Undo | WindowAction::NextDisplay | WindowAction::PreviousDisplay => {
            return None;
        },
    };
    Some(CalculationResult { rect, resulting_action: params.action })
}

/// The rectangle moved inwards by `gap` on every edge (outwards for a negative
/// gap).
pub open spec fn apply_gaps_spec(r: EngineRect, gap: int) -> EngineRect {
    erect(r.left + gap, r.top + gap, r.right - gap, r.bottom - gap)
}

/// Insets a rectangle by `gap` on every edge; a negative gap enlarges it. The
/// configured gap size is given here as the whole number of pixels that it
/// truncates to.
pub fn apply_gaps(rect: EngineRect, gap: i32) -> (r: EngineRect)
    requires
        fits_i32(rect.left + gap),
        fits_i32(rect.top + gap),
        fits_i32(rect.right - gap),
        fits_i32(rect.bottom - gap),
    ensures
        r == apply_gaps_spec(rect, gap as int),
{
    if gap == 0 {
        return rect;
    }
    EngineRect {
        left: rect.left + gap,
        top: rect.top + gap,
        right: rect.right - gap,
        bottom: rect.bottom - gap,
    }
}

// ---------------------------------------------------------------------------
// Laws
// ---------------------------------------------------------------------------

/// Every action's name denotes that action again, and "Restore" denotes Undo.
pub proof fn lemma_action_name_round_trip(a: WindowAction)
    ensures
        action_from_name_spec(action_name_spec(a)) == Some(a),
        action_from_name_spec("Restore"@) == Some(WindowAction::Undo),
{
    reveal_strlit("LeftHalf");
    reveal_strlit("RightHalf");
    reveal_strlit("TopHalf");
    reveal_strlit("BottomHalf");
    reveal_strlit("Maximize");
    reveal_strlit("Center");
    reveal_strlit("Undo");
    reveal_strlit("Restore");
    reveal_strlit("LowerLeft");
    reveal_strlit("LowerRight");
    reveal_strlit("UpperLeft");
    reveal_strlit("UpperRight");
    reveal_strlit("NextDisplay");
    reveal_strlit("PreviousDisplay");
    reveal_strlit("FirstThird");
    reveal_strlit("FirstTwoThirds");
    reveal_strlit("CenterThird");
    reveal_strlit("LastTwoThirds");
    reveal_strlit("LastThird");
    assert("LeftHalf"@.len() == 8 && "LeftHalf"@[0] == 'L' && "LeftHalf"@[1] == 'e');
    assert("RightHalf"@.len() == 9 && "RightHalf"@[0] == 'R' && "RightHalf"@[1] == 'i');
    assert("TopHalf"@.len() == 7 && "TopHalf"@[0] == 'T' && "TopHalf"@[1] == 'o');
    assert("BottomHalf"@.len() == 10 && "BottomHalf"@[0] == 'B' && "BottomHalf"@[1] == 'o');
    assert("Maximize"@.len() == 8 && "Maximize"@[0] == 'M' && "Maximize"@[1] == 'a');
    assert("Center"@.len() == 6 && "Center"@[0] == 'C' && "Center"@[1] == 'e');
    assert("Undo"@.len() == 4 && "Undo"@[0] == 'U' && "Undo"@[1] == 'n');
    assert("Restore"@.len() == 7 && "Restore"@[0] == 'R' && "Restore"@[1] == 'e');
    assert("LowerLeft"@.len() == 9 && "LowerLeft"@[0] == 'L' && "LowerLeft"@[1] == 'o');
    assert("LowerRight"@.len() == 10 && "LowerRight"@[0] == 'L' && "LowerRight"@[1] == 'o');
    assert("UpperLeft"@.len() == 9 && "UpperLeft"@[0] == 'U' && "UpperLeft"@[1] == 'p');
    assert("UpperRight"@.len() == 10 && "UpperRight"@[0] == 'U' && "UpperRight"@[1] == 'p');
    assert("NextDisplay"@.len() == 11 && "NextDisplay"@[0] == 'N' && "NextDisplay"@[1] == 'e');
    assert("PreviousDisplay"@.len() == 15 && "PreviousDisplay"@[0] == 'P' && "PreviousDisplay"@[1] == 'r');
    assert("FirstThird"@.len() == 10 && "FirstThird"@[0] == 'F' && "FirstThird"@[1] == 'i');
    assert("FirstTwoThirds"@.len() == 14 && "FirstTwoThirds"@[0] == 'F' && "FirstTwoThirds"@[1] == 'i');
    assert("CenterThird"@.len() == 11 && "CenterThird"@[0] == 'C' && "CenterThird"@[1] == 'e');
    assert("LastTwoThirds"@.len() == 13 && "LastTwoThirds"@[0] == 'L' && "LastTwoThirds"@[1] == 'a');
    assert("LastThird"@.len() == 9 && "LastThird"@[0] == 'L' && "LastThird"@[1] == 'a');
}

/// The engine computes a rectangle exactly for the actions that have a
/// calculation.
pub proof fn lemma_calculated_iff_has_calculation(
    win: EngineRect,
    w: EngineRect,
    action: WindowAction,
    ratios: (int, int, int),
)
    ensures
        calculate_spec(win, w, action, ratios) is Some <==> has_calculation_spec(action),
{
}

/// Maximize fills the work area.
pub proof fn lemma_maximize_fills_work_area(win: EngineRect, w: EngineRect, ratios: (int, int, int))
    ensures
        calculate_spec(win, w, WindowAction::Maximize, ratios) == Some(w),
{
}

/// The left and right halves split the work area at one vertical line, and the
/// top and bottom halves at one horizontal line; each half keeps the other
/// three edges of the work area.
pub proof fn lemma_halves_tile_work_area(win: EngineRect, w: EngineRect, ratios: (int, int, int))
    ensures
        ({
            let l = calculate_spec(win, w, WindowAction::LeftHalf, ratios)->0;
            let r = calculate_spec(win, w, WindowAction::RightHalf, ratios)->0;
            let t = calculate_spec(win, w, WindowAction::TopHalf, ratios)->0;
            let b = calculate_spec(win, w, WindowAction::BottomHalf, ratios)->0;
            &&& l.left == w.left && l.top == w.top && l.bottom == w.bottom
            &&& r.right == w.right && r.top == w.top && r.bottom == w.bottom
            &&& l.right == r.left
            &&& t.left == w.left && t.right == w.right && t.top == w.top
            &&& b.left == w.left && b.right == w.right && b.bottom == w.bottom
            &&& t.bottom == b.top
        }),
{
}

/// Each quarter is the overlap of the matching vertical and horizontal halves.
pub proof fn lemma_quarters_are_half_overlaps(win: EngineRect, w: EngineRect, ratios: (int, int, int))
    ensures
        ({
            let l = calculate_spec(win, w, WindowAction::LeftHalf, ratios)->0;
            let r = calculate_spec(win, w, WindowAction::RightHalf, ratios)->0;
            let t = calculate_spec(win, w, WindowAction::TopHalf, ratios)->0;
            let b = calculate_spec(win, w, WindowAction::BottomHalf, ratios)->0;
            &&& calculate_spec(win, w, WindowAction::UpperLeft, ratios)
                == Some(EngineRect { left: l.left, top: t.top, right: l.right, bottom: t.bottom })
            &&& calculate_spec(win, w, WindowAction::UpperRight, ratios)
                == Some(EngineRect { left: r.left, top: t.top, right: r.right, bottom: t.bottom })
            &&& calculate_spec(win, w, WindowAction::LowerLeft, ratios)
                == Some(EngineRect { left: l.left, top: b.top, right: l.right, bottom: b.bottom })
            &&& calculate_spec(win, w, WindowAction::LowerRight, ratios)
                == Some(EngineRect { left: r.left, top: b.top, right: r.right, bottom: b.bottom })
        }),
{
}

/// The first, centre and last sections lie side by side across the full height
/// of the work area, from its left edge to its right edge, and the two-section
/// actions cover exactly two neighbouring sections.
pub proof fn lemma_sections_tile_work_area(win: EngineRect, w: EngineRect, ratios: (int, int, int))
    ensures
        ({
            let first = calculate_spec(win, w, WindowAction::FirstThird, ratios)->0;
            let first_two = calculate_spec(win, w, WindowAction::FirstTwoThirds, ratios)->0;
            let center = calculate_spec(win, w, WindowAction::CenterThird, ratios)->0;
            let last_two = calculate_spec(win, w, WindowAction::LastTwoThirds, ratios)->0;
            let last = calculate_spec(win, w, WindowAction::LastThird, ratios)->0;
            &&& first.left == w.left && last.right == w.right
            &&& first.right == center.left && center.right == last.left
            &&& first_two.left == first.left && first_two.right == center.right
            &&& last_two.left == center.left && last_two.right == last.right
            &&& first.top == w.top && first.bottom == w.bottom
            &&& center.top == w.top && center.bottom == w.bottom
            &&& last.top == w.top && last.bottom == w.bottom
            &&& first_two.top == w.top && first_two.bottom == w.bottom
            &&& last_two.top == w.top && last_two.bottom == w.bottom
        }),
{
}

/// Centring keeps the window's width and height, and puts it at the middle of
/// the work area (rounded towards the top-left as integer halving does).
pub proof fn lemma_center_keeps_size(p: CalculationParams)
    requires
        p.action == WindowAction::Center,
        calculation_fits(p),
    ensures
        ({
            let c = calculate_spec(p.window_rect, p.work_area, WindowAction::Center,
                section_ratios_spec(p.thirds_layout_mode@))->0;
            let w = p.work_area;
            let win = p.window_rect;
            &&& c.spec_width() == win.spec_width()
            &&& c.spec_height() == win.spec_height()
            &&& c.left == w.left + tdiv(w.spec_width() - win.spec_width(), 2)
            &&& c.top == w.top + tdiv(w.spec_height() - win.spec_height(), 2)
        }),
{
}

/// Applying a gap and then the opposite gap gives back the rectangle, and a
/// zero gap changes nothing.
pub proof fn lemma_gap_inverse(r: EngineRect, gap: int)
    requires
        fits_i32(r.left + gap),
        fits_i32(r.top + gap),
        fits_i32(r.right - gap),
        fits_i32(r.bottom - gap),
    ensures
        apply_gaps_spec(apply_gaps_spec(r, gap), -gap) == r,
        apply_gaps_spec(r, 0) == r,
{
}

/// The halves and quarters split the work area at its midpoints: the vertical
/// split line lies half the work area's width (rounded towards zero) right of
/// its left edge, and the horizontal one half its height (rounded towards
/// zero) below its top edge. For a work area of non-negative size each half
/// is the larger half rounded down: twice its extent is the full extent, or
/// one less.
pub proof fn lemma_halves_split_at_midpoints(win: EngineRect, w: EngineRect, ratios: (int, int, int))
    requires
        fits_i32(w.right - w.left),
        fits_i32(w.bottom - w.top),
    ensures
        ({
            let width = w.right - w.left;
            let height = w.bottom - w.top;
            let mx = w.left + tdiv(width, 2);
            let my = w.top + tdiv(height, 2);
            &&& fits_i32(mx) && fits_i32(my)
            &&& calculate_spec(win, w, WindowAction::LeftHalf, ratios) == Some(
                (EngineRect { left: w.left, top: w.top, right: mx as i32, bottom: w.bottom }),
            )
            &&& calculate_spec(win, w, WindowAction::RightHalf, ratios) == Some(
                (EngineRect { left: mx as i32, top: w.top, right: w.right, bottom: w.bottom }),
            )
            &&& calculate_spec(win, w, WindowAction::TopHalf, ratios) == Some(
                (EngineRect { left: w.left, top: w.top, right: w.right, bottom: my as i32 }),
            )
            &&& calculate_spec(win, w, WindowAction::BottomHalf, ratios) == Some(
                (EngineRect { left: w.left, top: my as i32, right: w.right, bottom: w.bottom }),
            )
            &&& calculate_spec(win, w, WindowAction::UpperLeft, ratios) == Some(
                (EngineRect { left: w.left, top: w.top, right: mx as i32, bottom: my as i32 }),
            )
            &&& calculate_spec(win, w, WindowAction::UpperRight, ratios) == Some(
                (EngineRect { left: mx as i32, top: w.top, right: w.right, bottom: my as i32 }),
            )
            &&& calculate_spec(win, w, WindowAction::LowerLeft, ratios) == Some(
                (EngineRect { left: w.left, top: my as i32, right: mx as i32, bottom: w.bottom }),
            )
            &&& calculate_spec(win, w, WindowAction::LowerRight, ratios) == Some(
                (EngineRect { left: mx as i32, top: my as i32, right: w.right, bottom: w.bottom }),
            )
            &&& width >= 0 ==> 0 <= 2 * (mx - w.left) <= width <= 2 * (mx - w.left) + 1
            &&& height >= 0 ==> 0 <= 2 * (my - w.top) <= height <= 2 * (my - w.top) + 1
        }),
{
    lemma_half_within(w.left as int, w.right as int);
    lemma_half_within(w.top as int, w.bottom as int);
}

/// The sections cut the work area's width in the proportions of the section
/// widths (l, c, r): the first cut lies `width * l / (l + c + r)` and the
/// second `width * (l + c) / (l + c + r)` (both rounded towards zero) right of
/// the work area's left edge, and each section action spans the sections it
/// names between those cuts and the work area's edges.
pub proof fn lemma_sections_cut_in_proportion(win: EngineRect, w: EngineRect, l: int, c: int, r: int)
    ensures
        ({
            let width = w.right - w.left;
            let total = l + c + r;
            let cut1 = (w.left + tdiv(width * l, total)) as i32;
            let cut2 = (w.left + tdiv(width * (l + c), total)) as i32;
            &&& calculate_spec(win, w, WindowAction::FirstThird, (l, c, r)) == Some(
                (EngineRect { left: w.left, top: w.top, right: cut1, bottom: w.bottom }),
            )
            &&& calculate_spec(win, w, WindowAction::FirstTwoThirds, (l, c, r)) == Some(
                (EngineRect { left: w.left, top: w.top, right: cut2, bottom: w.bottom }),
            )
            &&& calculate_spec(win, w, WindowAction::CenterThird, (l, c, r)) == Some(
                (EngineRect { left: cut1, top: w.top, right: cut2, bottom: w.bottom }),
            )
            &&& calculate_spec(win, w, WindowAction::LastTwoThirds, (l, c, r)) == Some(
                (EngineRect { left: cut1, top: w.top, right: w.right, bottom: w.bottom }),
            )
            &&& calculate_spec(win, w, WindowAction::LastThird, (l, c, r)) == Some(
                (EngineRect { left: cut2, top: w.top, right: w.right, bottom: w.bottom }),
            )
        }),
{
}

/// The section widths of the three layouts: "Fifths" (in any ASCII case)
/// gives a centre three times as wide as each side (1|3|1), "Fourths" twice
/// as wide (1|2|1), and every other name equal thirds (1|1|1).
pub proof fn lemma_section_layouts(mode: Seq<char>)
    ensures
        eq_ignore_ascii_case_spec(mode, "Fifths"@) ==> section_ratios_spec(mode) == (1int, 3int, 1int),
        eq_ignore_ascii_case_spec(mode, "Fourths"@) ==> section_ratios_spec(mode) == (1int, 2int, 1int),
        !eq_ignore_ascii_case_spec(mode, "Fifths"@) && !eq_ignore_ascii_case_spec(mode, "Fourths"@)
            ==> section_ratios_spec(mode) == (1int, 1int, 1int),
{
    reveal_strlit("Fifths");
    reveal_strlit("Fourths");
    if eq_ignore_ascii_case_spec(mode, "Fourths"@) {
        assert(crate::text::ascii_lower_seq(mode).len() == 7);
        assert(crate::text::ascii_lower_seq("Fifths"@).len() == 6);
    }
}

/// Each action's configuration name is the name of its variant.
pub proof fn lemma_action_names()
    ensures
        action_name_spec(WindowAction::LeftHalf) == "LeftHalf"@,
        action_name_spec(WindowAction::RightHalf) == "RightHalf"@,
        action_name_spec(WindowAction::TopHalf) == "TopHalf"@,
        action_name_spec(WindowAction::BottomHalf) == "BottomHalf"@,
        action_name_spec(WindowAction::Maximize) == "Maximize"@,
        action_name_spec(WindowAction::Center) == "Center"@,
        action_name_spec(WindowAction::Undo) == "Undo"@,
        action_name_spec(WindowAction::LowerLeft) == "LowerLeft"@,
        action_name_spec(WindowAction::LowerRight) == "LowerRight"@,
        action_name_spec(WindowAction::UpperLeft) == "UpperLeft"@,
        action_name_spec(WindowAction::UpperRight) == "UpperRight"@,
        action_name_spec(WindowAction::NextDisplay) == "NextDisplay"@,
        action_name_spec(WindowAction::PreviousDisplay) == "PreviousDisplay"@,
        action_name_spec(WindowAction::FirstThird) == "FirstThird"@,
        action_name_spec(WindowAction::FirstTwoThirds) == "FirstTwoThirds"@,
        action_name_spec(WindowAction::CenterThird) == "CenterThird"@,
        action_name_spec(WindowAction::LastTwoThirds) == "LastTwoThirds"@,
        action_name_spec(WindowAction::LastThird) == "LastThird"@,
{
}

/// The five section actions are exactly FirstThird, FirstTwoThirds,
/// CenterThird, LastTwoThirds and LastThird, and the actions the engine
/// computes nothing for are exactly Undo, NextDisplay and PreviousDisplay.
pub proof fn lemma_action_categories(a: WindowAction)
    ensures
        is_section_action_spec(a) <==> (a == WindowAction::FirstThird || a
            == WindowAction::FirstTwoThirds || a == WindowAction::CenterThird || a
            == WindowAction::LastTwoThirds || a == WindowAction::LastThird),
        !has_calculation_spec(a) <==> (a == WindowAction::Undo || a == WindowAction::NextDisplay
            || a == WindowAction::PreviousDisplay),
{
}

/// A gap moves every edge inwards by the gap (outwards for a negative one):
/// left and top grow by it, right and bottom shrink by it, so width and
/// height each lose twice the gap.
pub proof fn lemma_gap_moves_each_edge(r: EngineRect, gap: int)
    requires
        fits_i32(r.left + gap),
        fits_i32(r.top + gap),
        fits_i32(r.right - gap),
        fits_i32(r.bottom - gap),
    ensures
        apply_gaps_spec(r, gap).left == r.left + gap,
        apply_gaps_spec(r, gap).top == r.top + gap,
        apply_gaps_spec(r, gap).right == r.right - gap,
        apply_gaps_spec(r, gap).bottom == r.bottom - gap,
        apply_gaps_spec(r, gap).spec_width() == r.spec_width() - 2 * gap,
        apply_gaps_spec(r, gap).spec_height() == r.spec_height() - 2 * gap,
{
}

} // verus!
