//! The window manager's decisions and bookkeeping: where a window goes for an
//! action, the rectangle an Undo restores, the last action per window, the
//! displays next to the current one, and what happens when the user drags a
//! snapped window away.
//!
//! Windows are identified by their handle value (`isize`), displays by their
//! monitor handle value.

use vstd::prelude::*;
use std::collections::HashMap;
use crate::rect::{Rect, EngineRect, fits_i32, abs_int};
use crate::engine::{
    WindowAction, CalculationParams, LastActionInfo, calculate, apply_gaps, calculate_spec,
    calculation_fits, section_ratios_spec, apply_gaps_spec, tdiv, has_calculation_spec,
};
use crate::text::{eq_ignore_ascii_case, eq_ignore_ascii_case_spec, str_eq};

verus! {

broadcast use vstd::std_specs::hash::group_hash_axioms;

/// A display: its handle value, its full rectangle and its work area (the
/// rectangle without the taskbar).
#[derive(Clone, Copy, Debug, PartialEq, Eq, Structural)]
pub struct MonitorInfo {
    pub hmonitor: isize,
    pub monitor_rect: Rect,
    pub work_area: Rect,
}

/// The options that steer an action, with every gap given as the whole number
/// of pixels that the configured size truncates to.
#[derive(Clone, Debug)]
pub struct SnapOptions {
    pub gap: i32,
    pub screen_edge_gap_top: i32,
    pub screen_edge_gap_bottom: i32,
    pub screen_edge_gap_left: i32,
    pub screen_edge_gap_right: i32,
    pub update_restore_rect: bool,
    pub apply_gaps_to_maximize: bool,
    pub move_cursor_after_snap: bool,
    pub move_cursor_across_displays: bool,
    pub thirds_layout_mode: String,
}

/// Per-window memory of the manager: the rectangle an Undo restores, and the
/// last action applied together with the rectangle it produced.
pub struct WindowManager {
    restore_rects: HashMap<isize, Rect>,
    last_actions: HashMap<isize, (WindowAction, Rect)>,
}

impl View for WindowManager {
    type V = (Map<isize, Rect>, Map<isize, (WindowAction, Rect)>);

    closed spec fn view(&self) -> Self::V {
        (self.restore_rects@, self.last_actions@)
    }
}

impl WindowManager {
    /// The rectangles an Undo restores, per window.
    pub open spec fn restores(&self) -> Map<isize, Rect> {
        self@.0
    }

    /// The last action and its rectangle, per window.
    pub open spec fn lasts(&self) -> Map<isize, (WindowAction, Rect)> {
        self@.1
    }

    /// A manager that remembers nothing yet.
    pub fn new() -> (m: Self)
        ensures
            m.restores() == Map::<isize, Rect>::empty(),
            m.lasts() == Map::<isize, (WindowAction, Rect)>::empty(),
    {
        WindowManager { restore_rects: HashMap::new(), last_actions: HashMap::new() }
    }

    /// The rectangle an Undo would restore the window to.
    pub fn get_restore_rect(&self, key: isize) -> (r: Option<Rect>)
        ensures
            r == (if self.restores().contains_key(key) {
                Some(self.restores()[key])
            } else {
                None
            }),
    {
        match self.restore_rects.get(&key) {
            Some(r) => Some(*r),
            None => None,
        }
    }

    /// The rectangle the last action gave the window.
    pub fn get_last_action_rect(&self, key: isize) -> (r: Option<Rect>)
        ensures
            r == (if self.lasts().contains_key(key) {
                Some(self.lasts()[key].1)
            } else {
                None
            }),
    {
        match self.last_actions.get(&key) {
            Some(a) => Some(a.1),
            None => None,
        }
    }

    /// The last action applied to the window and its rectangle.
    pub fn get_last_action(&self, key: isize) -> (r: Option<(WindowAction, Rect)>)
        ensures
            r == (if self.lasts().contains_key(key) {
                Some(self.lasts()[key])
            } else {
                None
            }),
    {
        match self.last_actions.get(&key) {
            Some(a) => Some(*a),
            None => None,
        }
    }

    /// Forgets the window's last action (after an Undo, or after the user
    /// moved the window away).
    pub fn remove_last_action(&mut self, key: isize)
        ensures
            final(self)@ == (old(self)@.0, old(self)@.1.remove(key)),
    {
        self.last_actions.remove(&key);
    }

    /// Forgets everything about a window (once it has been destroyed, so that
    /// a new window that gets the same handle starts afresh).
    pub fn forget_window(&mut self, key: isize)
        ensures
            final(self)@ == forgotten(old(self)@, key),
    {
        self.restore_rects.remove(&key);
        self.last_actions.remove(&key);
    }

    /// Remembers the rectangle a window had before it is moved, when the
    /// options ask for that.
    pub fn remember_restore_rect(&mut self, key: isize, rect: Rect, update_restore_rect: bool)
        ensures
            final(self)@ == remembered(old(self)@, key, rect, update_restore_rect),
    {
        if update_restore_rect {
            self.restore_rects.insert(key, rect);
        }
    }

    /// Records the action applied to a window and the rectangle it got.
    pub fn record_last_action(&mut self, key: isize, action: WindowAction, rect: Rect)
        ensures
            final(self)@ == moved(old(self)@, key, action, rect, true),
    {
        self.last_actions.insert(key, (action, rect));
    }

    /// Finishes an Undo: once the window has been put back, its last action is
    /// forgotten; the restore rectangle stays.
    pub fn finish_undo(&mut self, key: isize, applied: bool)
        ensures
            final(self)@ == undone(old(self)@, key, applied),
    {
        if applied {
            self.remove_last_action(key);
        }
    }

    /// Finishes a move: when the window took the target rectangle, the action
    /// and rectangle are recorded as its last action.
    pub fn finish_move(&mut self, key: isize, action: WindowAction, target: Rect, applied: bool)
        ensures
            final(self)@ == moved(old(self)@, key, action, target, applied),
    {
        if applied {
            self.record_last_action(key, action, target);
        }
    }
}

/// The manager's memory as plain maps: restore rectangles, and last actions
/// with their rectangles.
pub type ManagerView = (Map<isize, Rect>, Map<isize, (WindowAction, Rect)>);

/// The memory after remembering `rect` as the window's restore rectangle (only
/// when `update` is set).
pub open spec fn remembered(m: ManagerView, key: isize, rect: Rect, update: bool) -> ManagerView {
    (if update { m.0.insert(key, rect) } else { m.0 }, m.1)
}

/// The memory after a move of the window: its last action is recorded only
/// when the move was applied.
pub open spec fn moved(m: ManagerView, key: isize, action: WindowAction, target: Rect, applied: bool) -> ManagerView {
    (m.0, if applied { m.1.insert(key, (action, target)) } else { m.1 })
}

/// The memory after an Undo: the last action is forgotten only when the window
/// was put back; the restore rectangle stays.
pub open spec fn undone(m: ManagerView, key: isize, applied: bool) -> ManagerView {
    (m.0, if applied { m.1.remove(key) } else { m.1 })
}

/// The memory without anything about the window.
pub open spec fn forgotten(m: ManagerView, key: isize) -> ManagerView {
    (m.0.remove(key), m.1.remove(key))
}

/// The work area with the screen-edge gaps taken off each side.
pub open spec fn inset_spec(work: Rect, o: SnapOptions) -> Rect {
    Rect {
        left: (work.left + o.screen_edge_gap_left) as i32,
        top: (work.top + o.screen_edge_gap_top) as i32,
        right: (work.right - o.screen_edge_gap_right) as i32,
        bottom: (work.bottom - o.screen_edge_gap_bottom) as i32,
    }
}

/// Taking the screen-edge gaps off the work area stays within `i32`.
pub open spec fn inset_fits(work: Rect, o: SnapOptions) -> bool {
    &&& fits_i32(work.left + o.screen_edge_gap_left)
    &&& fits_i32(work.top + o.screen_edge_gap_top)
    &&& fits_i32(work.right - o.screen_edge_gap_right)
    &&& fits_i32(work.bottom - o.screen_edge_gap_bottom)
}

/// Takes the screen-edge gaps off a work area.
pub fn inset_work_area_by_screen_edge_gaps(work: Rect, opts: &SnapOptions) -> (r: Rect)
    requires
        inset_fits(work, *opts),
    ensures
        r == inset_spec(work, *opts),
{
    let t = opts.screen_edge_gap_top;
    let b = opts.screen_edge_gap_bottom;
    let l = opts.screen_edge_gap_left;
    let r = opts.screen_edge_gap_right;
    if t == 0 && b == 0 && l == 0 && r == 0 {
        return work;
    }
    Rect { left: work.left + l, top: work.top + t, right: work.right - r, bottom: work.bottom - b }
}

/// The gap can be applied to the rectangle within `i32`.
pub open spec fn gap_fits(r: EngineRect, gap: int) -> bool {
    &&& fits_i32(r.left + gap)
    &&& fits_i32(r.top + gap)
    &&& fits_i32(r.right - gap)
    &&& fits_i32(r.bottom - gap)
}

/// Where a window moved to another display goes: that display's work area,
/// less the screen-edge gaps, less the window gap.
pub open spec fn display_target_spec(dest: Rect, o: SnapOptions) -> Rect {
    apply_gaps_spec(EngineRect::spec_from_rect(inset_spec(dest, o)), o.gap as int).spec_to_rect()
}

/// The rectangle a window gets when it moves to the display with work area
/// `dest`.
pub fn display_move_target(dest: Rect, opts: &SnapOptions) -> (r: Rect)
    requires
        inset_fits(dest, *opts),
        gap_fits(EngineRect::spec_from_rect(inset_spec(dest, *opts)), opts.gap as int),
    ensures
        r == display_target_spec(dest, *opts),
{
    let inset = inset_work_area_by_screen_edge_gaps(dest, opts);
    let mut engine_rect = EngineRect::from_rect(&inset);
    if opts.gap != 0 {
        engine_rect = apply_gaps(engine_rect, opts.gap);
    }
    engine_rect.to_rect()
}

/// Whether the window gap is applied to the result of an action: only with a
/// non-zero gap, never when centring, and for Maximize only when the options
/// say so.
pub open spec fn gaps_apply(action: WindowAction, o: SnapOptions) -> bool {
    o.gap != 0 && !(action == WindowAction::Maximize && !o.apply_gaps_to_maximize) && action
        != WindowAction::Center
}

/// The layout parameters of an action on a window with rectangle `window` in
/// work area `work` (already inset).
pub open spec fn snap_params(window: Rect, work: Rect, action: WindowAction, o: SnapOptions, last: Option<LastActionInfo>) -> CalculationParams {
    CalculationParams {
        window_rect: EngineRect::spec_from_rect(window),
        work_area: EngineRect::spec_from_rect(work),
        action,
        last_action: last,
        thirds_layout_mode: o.thirds_layout_mode,
    }
}

/// Where an action puts a window: nothing when the inset work area is the
/// empty rectangle or the engine computes nothing; otherwise the engine's
/// rectangle, with the window gap applied when `gaps_apply` says so.
pub open spec fn snap_target_spec(window: Rect, work_area: Rect, action: WindowAction, o: SnapOptions) -> Option<Rect> {
    let work = inset_spec(work_area, o);
    if work.spec_is_empty() {
        None
    } else {
        match calculate_spec(
            EngineRect::spec_from_rect(window),
            EngineRect::spec_from_rect(work),
            action,
            section_ratios_spec(o.thirds_layout_mode@),
        ) {
            None => None,
            Some(t) => Some(
                if gaps_apply(action, o) {
                    apply_gaps_spec(t, o.gap as int)
                } else {
                    t
                }.spec_to_rect(),
            ),
        }
    }
}

/// The arithmetic of `snap_target_spec` stays within `i32`.
pub open spec fn snap_fits(window: Rect, work_area: Rect, action: WindowAction, o: SnapOptions) -> bool {
    let work = inset_spec(work_area, o);
    &&& inset_fits(work_area, o)
    &&& calculation_fits(snap_params(window, work, action, o, None))
    &&& (calculate_spec(
        EngineRect::spec_from_rect(window),
        EngineRect::spec_from_rect(work),
        action,
        section_ratios_spec(o.thirds_layout_mode@),
    ) matches Some(t) ==> (gaps_apply(action, o) ==> gap_fits(t, o.gap as int)))
}

impl WindowManager {
    /// The rectangle an action puts the window in, and the action that
    /// produced it; `None` when the action has no calculation or the work area
    /// is empty.
    pub fn snap_target(
        &self,
        key: isize,
        action: WindowAction,
        window_rect: Rect,
        work_area: Rect,
        opts: &SnapOptions,
    ) -> (r: Option<(Rect, WindowAction)>)
        requires
            snap_fits(window_rect, work_area, action, *opts),
        ensures
            match r {
                Some((t, a)) => snap_target_spec(window_rect, work_area, action, *opts) == Some(t)
                    && a == action,
                None => snap_target_spec(window_rect, work_area, action, *opts) is None,
            },
    {
        let work = inset_work_area_by_screen_edge_gaps(work_area, opts);
        if work.is_empty() {
            return None;
        }
        let last_info = match self.last_actions.get(&key) {
            Some(la) => Some(LastActionInfo { rect: EngineRect::from_rect(&la.1), action: la.0 }),
            None => None,
        };
        let params = CalculationParams {
            window_rect: EngineRect::from_rect(&window_rect),
            work_area: EngineRect::from_rect(&work),
            action,
            last_action: last_info,
            thirds_layout_mode: opts.thirds_layout_mode.clone(),
        };
        assert(calculation_fits(params) == calculation_fits(
            snap_params(window_rect, work, action, *opts, None),
        ));
        let result = match calculate(&params) {
            Some(res) => res,
            None => return None,
        };
        let mut target = result.rect;
        let mut do_apply_gaps = opts.gap != 0;
        if do_apply_gaps && action == WindowAction::Maximize && !opts.apply_gaps_to_maximize {
            do_apply_gaps = false;
        }
        if do_apply_gaps && action == WindowAction::Center {
            do_apply_gaps = false;
        }
        if do_apply_gaps {
            target = apply_gaps(target, opts.gap);
        }
        Some((target.to_rect(), result.resulting_action))
    }
}

/// The middle of a rectangle (rounded towards its top-left).
pub open spec fn center_spec(r: Rect) -> (int, int) {
    (r.left + tdiv(r.right - r.left, 2), r.top + tdiv(r.bottom - r.top, 2))
}

/// Whether the options ask for the cursor to follow the window: after a move
/// to another display (`across_displays`) or after a snap.
pub open spec fn cursor_wanted(o: SnapOptions, across_displays: bool) -> bool {
    if across_displays {
        o.move_cursor_across_displays
    } else {
        o.move_cursor_after_snap
    }
}

/// Where the cursor goes after a move: the middle of the window's rectangle
/// when the options ask for it, nowhere otherwise.
pub open spec fn cursor_spec(r: Rect, o: SnapOptions, across_displays: bool) -> Option<(i32, i32)> {
    if cursor_wanted(o, across_displays) {
        Some(((center_spec(r).0) as i32, (center_spec(r).1) as i32))
    } else {
        None
    }
}

/// The point the cursor moves to after a move, if the options ask for it:
/// `across_displays` tells a move to another display from a snap.
pub fn cursor_target(r: Rect, opts: &SnapOptions, across_displays: bool) -> (p: Option<(i32, i32)>)
    requires
        cursor_wanted(*opts, across_displays) ==> fits_i32(r.spec_width()) && fits_i32(
            r.spec_height(),
        ),
    ensures
        p == cursor_spec(r, *opts, across_displays),
{
    let wanted = if across_displays {
        opts.move_cursor_across_displays
    } else {
        opts.move_cursor_after_snap
    };
    if !wanted {
        return None;
    }
    proof {
        assert(fits_i32(center_spec(r).0));
        assert(fits_i32(center_spec(r).1));
    }
    Some((r.left + r.width() / 2, r.top + r.height() / 2))
}

/// Whether actions are disabled for the process owning the window: the list
/// of disabled process names is given and not empty, the process name is
/// known, and it equals one of the names up to ASCII case.
pub open spec fn process_disabled_spec(names: Option<Seq<Seq<char>>>, name: Option<Seq<char>>) -> bool {
    match (names, name) {
        (Some(ns), Some(n)) => ns.len() > 0 && exists|i: int|
            0 <= i < ns.len() && eq_ignore_ascii_case_spec(#[trigger] ns[i], n),
        _ => false,
    }
}

pub open spec fn names_view(names: Option<Vec<String>>) -> Option<Seq<Seq<char>>> {
    match names {
        Some(v) => Some(v@.map_values(|s: String| s@)),
        None => None,
    }
}

pub open spec fn name_view(name: Option<String>) -> Option<Seq<char>> {
    match name {
        Some(s) => Some(s@),
        None => None,
    }
}

/// Whether the process that owns the window is one the options exclude.
pub fn is_process_disabled(names: &Option<Vec<String>>, process_name: &Option<String>) -> (r: bool)
    ensures
        r == process_disabled_spec(names_view(*names), name_view(*process_name)),
{
    let ns = match names {
        Some(ns) => ns,
        None => return false,
    };
    if ns.len() == 0 {
        return false;
    }
    let name = match process_name {
        Some(n) => n,
        None => return false,
    };
    let ghost view = ns@.map_values(|s: String| s@);
    let mut i: usize = 0;
    while i < ns.len()
        invariant
            i <= ns@.len(),
            view == ns@.map_values(|s: String| s@),
            names_view(*names) == Some(view),
            name_view(*process_name) == Some(name@),
            view.len() > 0,
            forall|j: int| 0 <= j < i ==> !eq_ignore_ascii_case_spec(#[trigger] view[j], name@),
        decreases ns@.len() - i,
    {
        if eq_ignore_ascii_case(ns[i].as_str(), name.as_str()) {
            assert(eq_ignore_ascii_case_spec(view[i as int], name@));
            return true;
        }
        i = i + 1;
    }
    false
}

/// Extended window style of a tool window (floating toolbars, tray popups).
pub const WS_EX_TOOLWINDOW: u32 = 0x0000_0080;

/// The window classes of the shell's own surfaces: the taskbars, the desktop,
/// the Start menu and search (`Windows.UI.Core.CoreWindow`) and the tray
/// overflow popups.
pub open spec fn shell_class_spec(class: Seq<char>) -> bool {
    ||| class == "Shell_TrayWnd"@
    ||| class == "Shell_SecondaryTrayWnd"@
    ||| class == "Progman"@
    ||| class == "WorkerW"@
    ||| class == "Windows.UI.Core.CoreWindow"@
    ||| class == "NotifyIconOverflowWindow"@
    ||| class == "TopLevelWindowForOverflowXamlIsland"@
}

/// A window that actions may move: not a tool window and not part of the
/// shell.
pub open spec fn snappable_spec(ex_style: u32, class: Seq<char>) -> bool {
    ex_style & WS_EX_TOOLWINDOW == 0 && !shell_class_spec(class)
}

/// Whether a window with this extended style and window class is one that
/// actions may move; shell surfaces (Start menu, taskbar, tray popups) and
/// tool windows are left alone.
pub fn is_snappable_window(ex_style: u32, class_name: &str) -> (r: bool)
    ensures
        r == snappable_spec(ex_style, class_name@),
{
    if ex_style & WS_EX_TOOLWINDOW != 0 {
        return false;
    }
    !(str_eq(class_name, "Shell_TrayWnd") || str_eq(class_name, "Shell_SecondaryTrayWnd")
        || str_eq(class_name, "Progman") || str_eq(class_name, "WorkerW") || str_eq(
        class_name,
        "Windows.UI.Core.CoreWindow",
    ) || str_eq(class_name, "NotifyIconOverflowWindow") || str_eq(
        class_name,
        "TopLevelWindowForOverflowXamlIsland",
    ))
}

/// The index of the first display with handle `h`.
pub open spec fn monitor_index(ms: Seq<MonitorInfo>, h: isize) -> Option<int> {
    if exists|i: int| 0 <= i < ms.len() && (#[trigger] ms[i]).hmonitor == h {
        Some(
            choose|i: int|
                0 <= i < ms.len() && (#[trigger] ms[i]).hmonitor == h && forall|j: int|
                    0 <= j < i ==> (#[trigger] ms[j]).hmonitor != h,
        )
    } else {
        None
    }
}

/// The current work area and those of the displays before and after the
/// current one in the display list: with no displays, the empty rectangle and
/// no neighbours; the current work area is the one the OS reported for the
/// current display (the empty rectangle if it reported none); a display not
/// in the list has no neighbours.
pub open spec fn work_areas_spec(ms: Seq<MonitorInfo>, current: isize, info: Option<(Rect, Rect)>) -> (Rect, Option<Rect>, Option<Rect>) {
    let zero = Rect { left: 0, top: 0, right: 0, bottom: 0 };
    if ms.len() == 0 {
        (zero, None, None)
    } else {
        let work = match info {
            Some(i) => i.1,
            None => zero,
        };
        match monitor_index(ms, current) {
            Some(i) => (
                work,
                if i > 0 { Some(ms[i - 1].work_area) } else { None },
                if i + 1 < ms.len() { Some(ms[i + 1].work_area) } else { None },
            ),
            None => (work, None, None),
        }
    }
}

/// The current work area and the work areas of the previous and next display.
/// `current_info` is what the OS reported for the current display: (monitor
/// rectangle, work area).
pub fn current_and_adjacent_work_areas(
    monitors: &Vec<MonitorInfo>,
    current: isize,
    current_info: Option<(Rect, Rect)>,
) -> (r: (Rect, Option<Rect>, Option<Rect>))
    ensures
        r == work_areas_spec(monitors@, current, current_info),
{
    if monitors.len() == 0 {
        return (Rect::default(), None, None);
    }
    let current_work = match current_info {
        Some(info) => info.1,
        None => Rect::default(),
    };
    let n = monitors.len();
    let mut i: usize = 0;
    while i < n
        invariant
            n == monitors@.len(),
            n > 0,
            current_work == (match current_info {
                Some(info) => info.1,
                None => Rect { left: 0, top: 0, right: 0, bottom: 0 },
            }),
            i <= n,
            forall|j: int| 0 <= j < i ==> (#[trigger] monitors@[j]).hmonitor != current,
        decreases n - i,
    {
        if monitors[i].hmonitor == current {
            proof {
                let k = monitor_index(monitors@, current)->0;
                assert(monitors@[i as int].hmonitor == current);
                assert(k == i as int) by {
                    if k < i {
                    } else if k > i {
                    }
                }
            }
            let prev = if i > 0 {
                Some(monitors[i - 1].work_area)
            } else {
                None
            };
            let next = if i + 1 < n {
                Some(monitors[i + 1].work_area)
            } else {
                None
            };
            return (current_work, prev, next);
        }
        i = i + 1;
    }
    (current_work, None, None)
}

/// How far a window may drift from its snapped rectangle and still count as
/// where it was put.
pub const DRAG_TOLERANCE: i32 = 5;

/// What a window gets when the user finishes moving or resizing it: nothing
/// while it is still within the tolerance of the rectangle it was snapped to;
/// otherwise its pre-snap size at the position where it was dropped.
pub open spec fn after_drag_spec(current: Rect, restore: Rect, snapped: Rect) -> Option<Rect> {
    if current.spec_approximately_equals(snapped, DRAG_TOLERANCE as int) {
        None
    } else {
        Some(
            Rect {
                left: current.left,
                top: current.top,
                right: (current.left + restore.spec_width()) as i32,
                bottom: (current.top + restore.spec_height()) as i32,
            },
        )
    }
}

/// The arithmetic of `after_drag_spec` stays within `i32`: the edge
/// differences always, and the restored size only once the window has left
/// its snapped rectangle.
pub open spec fn drag_fits(current: Rect, restore: Rect, snapped: Rect) -> bool {
    &&& current.differences_fit(snapped)
    &&& !current.spec_approximately_equals(snapped, DRAG_TOLERANCE as int) ==> {
        &&& fits_i32(restore.spec_width())
        &&& fits_i32(restore.spec_height())
        &&& fits_i32(current.left + restore.spec_width())
        &&& fits_i32(current.top + restore.spec_height())
    }
}

/// The rectangle to give a snapped window that the user dragged, if any.
pub fn rect_after_drag(current: Rect, restore: Rect, snapped: Rect) -> (r: Option<Rect>)
    requires
        drag_fits(current, restore, snapped),
    ensures
        r == after_drag_spec(current, restore, snapped),
{
    if current.approximately_equals(&snapped, DRAG_TOLERANCE) {
        return None;
    }
    Some(
        Rect {
            left: current.left,
            top: current.top,
            right: current.left + restore.width(),
            bottom: current.top + restore.height(),
        },
    )
}

/// What the end of a drag of window `key` asks for: nothing unless the
/// manager holds both a restore rectangle and a last action for the window
/// and its current rectangle is known; then `after_drag_spec` of the current
/// rectangle, the restore rectangle and the rectangle of the last action.
pub open spec fn drag_end_spec(m: ManagerView, key: isize, current: Option<Rect>) -> Option<Rect> {
    if m.0.contains_key(key) && m.1.contains_key(key) && current is Some {
        after_drag_spec(current->0, m.0[key], m.1[key].1)
    } else {
        None
    }
}

/// The arithmetic of `drag_end_spec` stays within `i32`.
pub open spec fn drag_end_fits(m: ManagerView, key: isize, current: Option<Rect>) -> bool {
    m.0.contains_key(key) && m.1.contains_key(key) && current is Some ==> drag_fits(
        current->0,
        m.0[key],
        m.1[key].1,
    )
}

impl WindowManager {
    /// The rectangle to give window `key` once the user has finished moving or
    /// resizing it (`current` is its rectangle as the OS reports it, if
    /// known): its pre-snap size where it was dropped, or nothing while it
    /// still sits where it was snapped. The caller then moves the window and
    /// forgets its last action.
    pub fn drag_end(&self, key: isize, current: Option<Rect>) -> (r: Option<Rect>)
        requires
            drag_end_fits(self@, key, current),
        ensures
            r == drag_end_spec(self@, key, current),
    {
        let restore = match self.get_restore_rect(key) {
            Some(r) => r,
            None => return None,
        };
        let last = match self.get_last_action_rect(key) {
            Some(r) => r,
            None => return None,
        };
        let c = match current {
            Some(c) => c,
            None => return None,
        };
        rect_after_drag(c, restore, last)
    }

    /// Whether `drag_end` can compute its answer for these arguments.
    pub fn drag_end_in_range(&self, key: isize, current: Option<Rect>) -> (b: bool)
        ensures
            b == drag_end_fits(self@, key, current),
    {
        let restore = match self.get_restore_rect(key) {
            Some(r) => r,
            None => return true,
        };
        let last = match self.get_last_action_rect(key) {
            Some(r) => r,
            None => return true,
        };
        let c = match current {
            Some(c) => c,
            None => return true,
        };
        drag_in_range(c, restore, last)
    }
}

// ---------------------------------------------------------------------------
// Carrying out an action
// ---------------------------------------------------------------------------
//
// An action runs in two steps around the one OS call that moves the window:
// `plan` decides from what the OS reported where the window goes (and
// remembers its restore rectangle), the caller moves it, and `finish` records
// the outcome and says where the cursor goes and whether the window is to be
// brought to the front.

/// Which kind of move a command is.
#[derive(Clone, Copy, Debug, PartialEq, Eq, Structural)]
pub enum MoveKind {
    /// Back to the restore rectangle.
    Undo,
    /// To the work area of another display.
    Display,
    /// To the rectangle the layout engine computed.
    Snap,
}

/// What the caller is to do with the window.
#[derive(Clone, Copy, Debug, PartialEq, Eq, Structural)]
pub enum Command {
    /// Nothing: the action does not apply, and the call reports `false`.
    Nothing,
    /// Move the window to `target`, given as its visible bounds when
    /// `visible_bounds` is set; on success `action` is recorded as its last
    /// action.
    Move { target: Rect, visible_bounds: bool, kind: MoveKind, action: WindowAction },
}

/// What follows a move: where the cursor goes, and whether the window is
/// brought to the front.
#[derive(Clone, Copy, Debug)]
pub struct Followup {
    pub cursor: Option<(i32, i32)>,
    pub focus: bool,
}

/// The work area an action moves to among the neighbouring displays, if the
/// action is a move to another display.
pub open spec fn neighbour_for(action: WindowAction, areas: (Rect, Option<Rect>, Option<Rect>)) -> Option<Rect> {
    if action == WindowAction::NextDisplay {
        areas.2
    } else {
        areas.1
    }
}

/// The first step of an action on window `key`: the memory afterwards and the
/// command. `disabled` tells that the window's process is excluded, `window`
/// is the window's visible rectangle as the OS reported it, and `areas` the
/// current work area and those of the previous and next display.
///
/// Nothing happens for an excluded process, for an Undo without a restore
/// rectangle, when the window's rectangle is unknown, for a move to a display
/// that does not exist (there is no wrap-around), and when the layout engine
/// gives no rectangle. An Undo moves the window so that its visible bounds are
/// the restore rectangle again (the restore rectangle is the visible
/// rectangle the window had before the move, so it is given as visible
/// bounds); the other actions first remember the window's visible rectangle
/// for Undo (when the options say so).
pub open spec fn plan_spec(
    m: ManagerView,
    key: isize,
    action: WindowAction,
    disabled: bool,
    window: Option<Rect>,
    areas: (Rect, Option<Rect>, Option<Rect>),
    o: SnapOptions,
) -> (ManagerView, Command) {
    if disabled {
        (m, Command::Nothing)
    } else if action == WindowAction::Undo {
        if m.0.contains_key(key) {
            (
                m,
                Command::Move {
                    target: m.0[key],
                    visible_bounds: true,
                    kind: MoveKind::Undo,
                    action: WindowAction::Undo,
                },
            )
        } else {
            (m, Command::Nothing)
        }
    } else {
        match window {
            None => (m, Command::Nothing),
            Some(w) => if action == WindowAction::NextDisplay || action
                == WindowAction::PreviousDisplay {
                match neighbour_for(action, areas) {
                    None => (m, Command::Nothing),
                    Some(d) => (
                        remembered(m, key, w, o.update_restore_rect),
                        Command::Move {
                            target: display_target_spec(d, o),
                            visible_bounds: false,
                            kind: MoveKind::Display,
                            action: WindowAction::Maximize,
                        },
                    ),
                }
            } else {
                match snap_target_spec(w, areas.0, action, o) {
                    None => (m, Command::Nothing),
                    Some(t) => (
                        remembered(m, key, w, o.update_restore_rect),
                        Command::Move {
                            target: t,
                            visible_bounds: true,
                            kind: MoveKind::Snap,
                            action,
                        },
                    ),
                }
            },
        }
    }
}

/// The arithmetic of `plan_spec` stays within `i32`.
pub open spec fn plan_fits(
    action: WindowAction,
    disabled: bool,
    window: Option<Rect>,
    areas: (Rect, Option<Rect>, Option<Rect>),
    o: SnapOptions,
) -> bool {
    !disabled && action != WindowAction::Undo && window is Some ==> if action
        == WindowAction::NextDisplay || action == WindowAction::PreviousDisplay {
        neighbour_for(action, areas) matches Some(d) ==> inset_fits(d, o) && gap_fits(
            EngineRect::spec_from_rect(inset_spec(d, o)),
            o.gap as int,
        )
    } else {
        snap_fits(window->0, areas.0, action, o)
    }
}

/// The second step: the memory afterwards and what follows, once the caller
/// has tried the move and learnt whether it was `applied`. A successful move
/// records its action and rectangle, and the cursor follows when the options
/// ask for it; a window moved to another display is also brought to the
/// front. A successful Undo forgets the last action. A failed move changes
/// nothing more.
pub open spec fn finish_spec(m: ManagerView, key: isize, cmd: Command, applied: bool, o: SnapOptions) -> (ManagerView, Followup) {
    let none = Followup { cursor: None, focus: false };
    match cmd {
        Command::Nothing => (m, none),
        Command::Move { target, visible_bounds, kind, action } => match kind {
            MoveKind::Undo => (undone(m, key, applied), none),
            MoveKind::Display => (
                moved(m, key, action, target, applied),
                if applied {
                    Followup { cursor: cursor_spec(target, o, true), focus: true }
                } else {
                    none
                },
            ),
            MoveKind::Snap => (
                moved(m, key, action, target, applied),
                if applied {
                    Followup { cursor: cursor_spec(target, o, false), focus: false }
                } else {
                    none
                },
            ),
        },
    }
}

/// The arithmetic of `finish_spec` stays within `i32`: the cursor position is
/// only computed for an applied move that the cursor is to follow.
pub open spec fn finish_fits(cmd: Command, applied: bool, o: SnapOptions) -> bool {
    match cmd {
        Command::Move { target, kind, .. } => applied && kind != MoveKind::Undo && cursor_wanted(
            o,
            kind == MoveKind::Display,
        ) ==> fits_i32(target.spec_width()) && fits_i32(target.spec_height()),
        Command::Nothing => true,
    }
}

impl WindowManager {
    /// Decides what an action does to window `key` (see `plan_spec`).
    pub fn plan(
        &mut self,
        key: isize,
        action: WindowAction,
        disabled: bool,
        window: Option<Rect>,
        areas: (Rect, Option<Rect>, Option<Rect>),
        opts: &SnapOptions,
    ) -> (c: Command)
        requires
            plan_fits(action, disabled, window, areas, *opts),
        ensures
            (final(self)@, c) == plan_spec(old(self)@, key, action, disabled, window, areas, *opts),
    {
        if disabled {
            return Command::Nothing;
        }
        if action == WindowAction::Undo {
            return match self.get_restore_rect(key) {
                Some(r) => Command::Move {
                    target: r,
                    visible_bounds: true,
                    kind: MoveKind::Undo,
                    action: WindowAction::Undo,
                },
                None => Command::Nothing,
            };
        }
        let w = match window {
            Some(w) => w,
            None => return Command::Nothing,
        };
        if action == WindowAction::NextDisplay || action == WindowAction::PreviousDisplay {
            let dest = if action == WindowAction::NextDisplay {
                areas.2
            } else {
                areas.1
            };
            let d = match dest {
                Some(d) => d,
                None => return Command::Nothing,
            };
            let target = display_move_target(d, opts);
            self.remember_restore_rect(key, w, opts.update_restore_rect);
            return Command::Move {
                target,
                visible_bounds: false,
                kind: MoveKind::Display,
                action: WindowAction::Maximize,
            };
        }
        match self.snap_target(key, action, w, areas.0, opts) {
            None => Command::Nothing,
            Some((t, a)) => {
                self.remember_restore_rect(key, w, opts.update_restore_rect);
                Command::Move { target: t, visible_bounds: true, kind: MoveKind::Snap, action: a }
            },
        }
    }

    /// Records the outcome of a command's move (see `finish_spec`).
    pub fn finish(&mut self, key: isize, cmd: Command, applied: bool, opts: &SnapOptions) -> (f:
        Followup)
        requires
            finish_fits(cmd, applied, *opts),
        ensures
            (final(self)@, f) == finish_spec(old(self)@, key, cmd, applied, *opts),
    {
        let none = Followup { cursor: None, focus: false };
        match cmd {
            Command::Nothing => none,
            Command::Move { target, visible_bounds, kind, action } => match kind {
                MoveKind::Undo => {
                    self.finish_undo(key, applied);
                    none
                },
                MoveKind::Display => {
                    self.finish_move(key, action, target, applied);
                    if applied {
                        Followup { cursor: cursor_target(target, opts, true), focus: true }
                    } else {
                        none
                    }
                },
                MoveKind::Snap => {
                    self.finish_move(key, action, target, applied);
                    if applied {
                        Followup { cursor: cursor_target(target, opts, false), focus: false }
                    } else {
                        none
                    }
                },
            },
        }
    }
}

// ---------------------------------------------------------------------------
// Display order
// ---------------------------------------------------------------------------

/// Displays are ordered left to right by the left edge of their rectangle,
/// and top to bottom among displays with the same left edge.
pub open spec fn monitor_before(a: MonitorInfo, b: MonitorInfo) -> bool {
    a.monitor_rect.left < b.monitor_rect.left || (a.monitor_rect.left == b.monitor_rect.left
        && a.monitor_rect.top < b.monitor_rect.top)
}

/// The displays whose rectangle has its top-left corner at (l, t).
pub open spec fn at_corner(l: i32, t: i32) -> spec_fn(MonitorInfo) -> bool {
    |m: MonitorInfo| m.monitor_rect.left == l && m.monitor_rect.top == t
}

/// No display comes after a later one in the sequence.
pub open spec fn monitors_sorted(ms: Seq<MonitorInfo>) -> bool {
    forall|i: int, j: int| 0 <= i < j < ms.len() ==> !monitor_before(#[trigger] ms[j], #[trigger] ms[i])
}

/// `out` is `input` sorted by display position, keeping the input order among
/// displays at the same position: it is sorted, and for every position it
/// lists the displays there in the order the input lists them.
pub open spec fn stably_sorted(input: Seq<MonitorInfo>, out: Seq<MonitorInfo>) -> bool {
    &&& monitors_sorted(out)
    &&& forall|l: i32, t: i32| #[trigger] out.filter(at_corner(l, t)) == input.filter(at_corner(l, t))
}

fn comes_before(a: &MonitorInfo, b: &MonitorInfo) -> (r: bool)
    ensures
        r == monitor_before(*a, *b),
{
    a.monitor_rect.left < b.monitor_rect.left || (a.monitor_rect.left == b.monitor_rect.left
        && a.monitor_rect.top < b.monitor_rect.top)
}

proof fn lemma_insert_keeps_order(
    out: Seq<MonitorInfo>,
    prefix: Seq<MonitorInfo>,
    m: MonitorInfo,
    p: int,
)
    requires
        monitors_sorted(out),
        0 <= p <= out.len(),
        forall|k: int| 0 <= k < p ==> !monitor_before(m, #[trigger] out[k]),
        forall|k: int| p <= k < out.len() ==> monitor_before(m, #[trigger] out[k]),
        forall|l: i32, t: i32| #[trigger] out.filter(at_corner(l, t)) == prefix.filter(at_corner(l, t)),
    ensures
        monitors_sorted(out.insert(p, m)),
        forall|l: i32, t: i32| #[trigger] out.insert(p, m).filter(at_corner(l, t)) == prefix.push(m).filter(
            at_corner(l, t),
        ),
{
    let a = out.subrange(0, p);
    let b = out.subrange(p, out.len() as int);
    let res = out.insert(p, m);
    assert(res =~= a + seq![m] + b);
    assert(out =~= a + b);
    assert forall|i: int, j: int| 0 <= i < j < res.len() implies !monitor_before(
        #[trigger] res[j],
        #[trigger] res[i],
    ) by {
        if j < p {
            assert(res[i] == out[i] && res[j] == out[j]);
        } else if j == p {
            assert(res[i] == out[i]);
        } else if i < p {
            assert(res[i] == out[i] && res[j] == out[j - 1]);
            assert(!monitor_before(m, out[i]));
            assert(monitor_before(m, out[j - 1]));
        } else if i == p {
            assert(res[j] == out[j - 1]);
        } else {
            assert(res[i] == out[i - 1] && res[j] == out[j - 1]);
        }
    }
    assert forall|l: i32, t: i32| #[trigger] res.filter(at_corner(l, t)) == prefix.push(m).filter(
        at_corner(l, t),
    ) by {
        let pred = at_corner(l, t);
        Seq::filter_distributes_over_add(a + seq![m], b, pred);
        Seq::filter_distributes_over_add(a, seq![m], pred);
        Seq::filter_distributes_over_add(a, b, pred);
        prefix.lemma_filter_push(m, pred);
        a.lemma_filter_push(m, pred);
        assert(a + seq![m] =~= a.push(m));
        if pred(m) {
            assert forall|k: int| 0 <= k < b.len() implies !pred(#[trigger] b[k]) by {
                assert(b[k] == out[p + k]);
                assert(monitor_before(m, out[p + k]));
            }
            assert(b.all(|x: MonitorInfo| !pred(x)));
            b.lemma_all_neg_filter_empty(pred);
            assert(b.filter(pred) =~= Seq::<MonitorInfo>::empty());
            assert(a.filter(pred).push(m) + b.filter(pred) =~= (a.filter(pred) + b.filter(pred)).push(m));
        }
    }
}

/// The displays sorted by position (left edge, then top edge), keeping the
/// given order among displays at the same position.
pub fn sort_monitors(monitors: Vec<MonitorInfo>) -> (r: Vec<MonitorInfo>)
    ensures
        stably_sorted(monitors@, r@),
{
    let mut out: Vec<MonitorInfo> = Vec::new();
    let n = monitors.len();
    let mut i: usize = 0;
    assert(monitors@.take(0) =~= Seq::<MonitorInfo>::empty());
    while i < n
        invariant
            n == monitors@.len(),
            i <= n,
            monitors_sorted(out@),
            forall|l: i32, t: i32| #[trigger] out@.filter(at_corner(l, t)) == monitors@.take(
                i as int,
            ).filter(at_corner(l, t)),
        decreases n - i,
    {
        let m = monitors[i];
        let mut p: usize = 0;
        while p < out.len() && !comes_before(&m, &out[p])
            invariant
                p <= out@.len(),
                monitors_sorted(out@),
                forall|k: int| 0 <= k < p ==> !monitor_before(m, #[trigger] out@[k]),
            decreases out@.len() - p,
        {
            p = p + 1;
        }
        proof {
            assert forall|k: int| p <= k < out@.len() implies monitor_before(m, #[trigger] out@[k]) by {
                assert(monitor_before(m, out@[p as int]));
                if k > p {
                    assert(!monitor_before(out@[k], out@[p as int]));
                }
            }
            lemma_insert_keeps_order(out@, monitors@.take(i as int), m, p as int);
            assert(monitors@.take(i + 1) =~= monitors@.take(i as int).push(m));
        }
        out.insert(p, m);
        i = i + 1;
    }
    assert(monitors@.take(n as int) =~= monitors@);
    out
}

// ---------------------------------------------------------------------------
// Whether the arithmetic fits
// ---------------------------------------------------------------------------
//
// The functions above do their arithmetic in `i32`, where the window manager
// panics on overflow. The predicates below let a caller find out beforehand.

fn fits(x: i64) -> (r: bool)
    ensures
        r == fits_i32(x as int),
{
    -2147483648i64 <= x && x <= 2147483647i64
}

/// Whether the screen-edge gaps can be taken off `work` within `i32`.
pub fn inset_in_range(work: Rect, opts: &SnapOptions) -> (r: bool)
    ensures
        r == inset_fits(work, *opts),
{
    fits(work.left as i64 + opts.screen_edge_gap_left as i64) && fits(
        work.top as i64 + opts.screen_edge_gap_top as i64,
    ) && fits(work.right as i64 - opts.screen_edge_gap_right as i64) && fits(
        work.bottom as i64 - opts.screen_edge_gap_bottom as i64,
    )
}

/// Whether a gap can be applied to `r` within `i32`.
pub fn gap_in_range(r: EngineRect, gap: i32) -> (b: bool)
    ensures
        b == gap_fits(r, gap as int),
{
    fits(r.left as i64 + gap as i64) && fits(r.top as i64 + gap as i64) && fits(
        r.right as i64 - gap as i64,
    ) && fits(r.bottom as i64 - gap as i64)
}

/// Whether `display_move_target` can compute the target for `dest`.
pub fn display_move_in_range(dest: Rect, opts: &SnapOptions) -> (r: bool)
    ensures
        r == (inset_fits(dest, *opts) && gap_fits(
            EngineRect::spec_from_rect(inset_spec(dest, *opts)),
            opts.gap as int,
        )),
{
    if !inset_in_range(dest, opts) {
        return false;
    }
    let inset = inset_work_area_by_screen_edge_gaps(dest, opts);
    gap_in_range(EngineRect::from_rect(&inset), opts.gap)
}

/// Whether the layout calculation for `p` stays within `i32`.
pub fn calculation_in_range(p: &CalculationParams) -> (r: bool)
    ensures
        r == calculation_fits(*p),
{
    let w = p.work_area;
    let win = p.window_rect;
    let width = w.right as i64 - w.left as i64;
    let height = w.bottom as i64 - w.top as i64;
    if !fits(width) || !fits(height) {
        return false;
    }
    if p.action == WindowAction::Center {
        let ww = win.right as i64 - win.left as i64;
        let wh = win.bottom as i64 - win.top as i64;
        if !fits(ww) || !fits(wh) || !fits(width - ww) || !fits(height - wh) {
            return false;
        }
        let x = w.left as i64 + (width - ww) / 2;
        let y = w.top as i64 + (height - wh) / 2;
        if !fits(x) || !fits(y) || !fits(x + ww) || !fits(y + wh) {
            return false;
        }
    }
    if p.action == WindowAction::FirstTwoThirds || p.action == WindowAction::CenterThird
        || p.action == WindowAction::LastThird {
        let (l, c, r) = crate::engine::section_ratios(p.thirds_layout_mode.as_str());
        let k = (l + c) as i64;
        assert(-0x8_0000_0000i64 < width * k < 0x8_0000_0000i64) by (nonlinear_arith)
            requires
                -0x1_0000_0000i64 < width < 0x1_0000_0000i64,
                1 <= k <= 4,
        ;
        if !fits(width * k) {
            return false;
        }
    }
    true
}

/// Whether `snap_target` can compute the target for these arguments.
pub fn snap_in_range(window_rect: Rect, work_area: Rect, action: WindowAction, opts: &SnapOptions) -> (r:
    bool)
    ensures
        r == snap_fits(window_rect, work_area, action, *opts),
{
    if !inset_in_range(work_area, opts) {
        return false;
    }
    let work = inset_work_area_by_screen_edge_gaps(work_area, opts);
    let params = CalculationParams {
        window_rect: EngineRect::from_rect(&window_rect),
        work_area: EngineRect::from_rect(&work),
        action,
        last_action: None,
        thirds_layout_mode: opts.thirds_layout_mode.clone(),
    };
    if !calculation_in_range(&params) {
        return false;
    }
    match calculate(&params) {
        None => true,
        Some(res) => {
            let apply = opts.gap != 0 && !(action == WindowAction::Maximize
                && !opts.apply_gaps_to_maximize) && action != WindowAction::Center;
            if apply {
                gap_in_range(res.rect, opts.gap)
            } else {
                true
            }
        },
    }
}

/// Whether `plan` can compute its answer for these arguments.
pub fn plan_in_range(
    action: WindowAction,
    disabled: bool,
    window: Option<Rect>,
    areas: (Rect, Option<Rect>, Option<Rect>),
    opts: &SnapOptions,
) -> (r: bool)
    ensures
        r == plan_fits(action, disabled, window, areas, *opts),
{
    if disabled || action == WindowAction::Undo {
        return true;
    }
    let w = match window {
        Some(w) => w,
        None => return true,
    };
    if action == WindowAction::NextDisplay || action == WindowAction::PreviousDisplay {
        let dest = if action == WindowAction::NextDisplay {
            areas.2
        } else {
            areas.1
        };
        match dest {
            Some(d) => display_move_in_range(d, opts),
            None => true,
        }
    } else {
        snap_in_range(w, areas.0, action, opts)
    }
}

/// Whether `finish` can compute its answer for these arguments.
pub fn finish_in_range(cmd: Command, applied: bool, opts: &SnapOptions) -> (r: bool)
    ensures
        r == finish_fits(cmd, applied, *opts),
{
    match cmd {
        Command::Nothing => true,
        Command::Move { target, kind, .. } => {
            let across = match kind {
                MoveKind::Display => true,
                _ => false,
            };
            let wanted = if across {
                opts.move_cursor_across_displays
            } else {
                opts.move_cursor_after_snap
            };
            let undo = match kind {
                MoveKind::Undo => true,
                _ => false,
            };
            if applied && !undo && wanted {
                size_in_range(target)
            } else {
                true
            }
        },
    }
}

/// Whether `rect_after_drag` can compute its answer for these rectangles.
pub fn drag_in_range(current: Rect, restore: Rect, snapped: Rect) -> (r: bool)
    ensures
        r == drag_fits(current, restore, snapped),
{
    let dl = current.left as i64 - snapped.left as i64;
    let dt = current.top as i64 - snapped.top as i64;
    let dr = current.right as i64 - snapped.right as i64;
    let db = current.bottom as i64 - snapped.bottom as i64;
    let differences = -2147483648i64 < dl && dl <= 2147483647i64 && -2147483648i64 < dt && dt
        <= 2147483647i64 && -2147483648i64 < dr && dr <= 2147483647i64 && -2147483648i64 < db && db
        <= 2147483647i64;
    if !differences {
        return false;
    }
    if current.approximately_equals(&snapped, DRAG_TOLERANCE) {
        return true;
    }
    let rw = restore.right as i64 - restore.left as i64;
    let rh = restore.bottom as i64 - restore.top as i64;
    fits(rw) && fits(rh) && fits(current.left as i64 + rw) && fits(current.top as i64 + rh)
}

/// Whether a rectangle's width and height fit in `i32`.
pub fn size_in_range(r: Rect) -> (b: bool)
    ensures
        b == (fits_i32(r.spec_width()) && fits_i32(r.spec_height())),
{
    fits(r.right as i64 - r.left as i64) && fits(r.bottom as i64 - r.top as i64)
}

// ---------------------------------------------------------------------------
// Laws
// ---------------------------------------------------------------------------

/// A move followed by an Undo, both applied: the Undo asks for the window's
/// visible bounds to be the visible rectangle it had before the move, and
/// forgets the move's record; the window keeps that restore rectangle, and no
/// other window's memory changes.
pub proof fn lemma_move_then_undo(
    m: ManagerView,
    key: isize,
    action: WindowAction,
    window: Rect,
    later_window: Option<Rect>,
    areas: (Rect, Option<Rect>, Option<Rect>),
    later_areas: (Rect, Option<Rect>, Option<Rect>),
    o: SnapOptions,
)
    requires
        action != WindowAction::Undo,
        o.update_restore_rect,
        plan_spec(m, key, action, false, Some(window), areas, o).1 is Move,
    ensures
        ({
            let (m1, c1) = plan_spec(m, key, action, false, Some(window), areas, o);
            let (m2, f2) = finish_spec(m1, key, c1, true, o);
            let (m3, c3) = plan_spec(m2, key, WindowAction::Undo, false, later_window, later_areas, o);
            let (m4, f4) = finish_spec(m3, key, c3, true, o);
            &&& m2.1.contains_key(key) && m2.1[key] == (c1->action, c1->target)
            &&& c3 == Command::Move {
                target: window,
                visible_bounds: true,
                kind: MoveKind::Undo,
                action: WindowAction::Undo,
            }
            &&& m4.0 == m.0.insert(key, window)
            &&& m4.1 == m.1.remove(key)
        }),
{
    let (m1, c1) = plan_spec(m, key, action, false, Some(window), areas, o);
    let (m2, f2) = finish_spec(m1, key, c1, true, o);
    assert(m2.1.insert(key, (c1->action, c1->target)).remove(key) =~= m.1.remove(key));
    assert(m.1.insert(key, (c1->action, c1->target)).remove(key) =~= m.1.remove(key));
}

/// How a layout action runs: it moves the window, as visible bounds, to the
/// engine's rectangle for the inset work area, with the window gap applied
/// unless the gap is zero, the action is Center, or the action is Maximize
/// and the options keep gaps off maximised windows; the window's rectangle is
/// remembered for Undo first. Once applied, the action and its rectangle are
/// recorded and the cursor follows exactly when `move_cursor_after_snap` is
/// set; the window is not brought to the front.
pub proof fn lemma_snap_rule(
    m: ManagerView,
    key: isize,
    action: WindowAction,
    window: Rect,
    areas: (Rect, Option<Rect>, Option<Rect>),
    applied: bool,
    o: SnapOptions,
)
    requires
        has_calculation_spec(action),
    ensures
        gaps_apply(action, o) == (o.gap != 0 && action != WindowAction::Center && !(action
            == WindowAction::Maximize && !o.apply_gaps_to_maximize)),
        plan_spec(m, key, action, false, Some(window), areas, o) == (match snap_target_spec(
            window,
            areas.0,
            action,
            o,
        ) {
            None => (m, Command::Nothing),
            Some(t) => (
                remembered(m, key, window, o.update_restore_rect),
                Command::Move { target: t, visible_bounds: true, kind: MoveKind::Snap, action },
            ),
        }),
        ({
            let (m1, c1) = plan_spec(m, key, action, false, Some(window), areas, o);
            let (m2, f2) = finish_spec(m1, key, c1, applied, o);
            c1 is Move ==> {
                &&& m2.0 == m1.0
                &&& m2.1 == (if applied {
                    m.1.insert(key, (action, c1->target))
                } else {
                    m.1
                })
                &&& (f2.cursor is Some <==> applied && o.move_cursor_after_snap)
                &&& !f2.focus
            }
        }),
{
}

/// How a move to another display runs: with no display on that side there is
/// nothing to do (no wrap-around) and nothing changes; otherwise the window's
/// rectangle is remembered for Undo and the window is moved (as window
/// rectangle, not visible bounds) to that display's work area less the
/// screen-edge gaps and the window gap (just the inset work area when the
/// window gap is zero). Once applied, it is recorded as a Maximize, the
/// window is brought to the front, and the cursor follows exactly when
/// `move_cursor_across_displays` is set.
pub proof fn lemma_display_rule(
    m: ManagerView,
    key: isize,
    action: WindowAction,
    window: Rect,
    areas: (Rect, Option<Rect>, Option<Rect>),
    applied: bool,
    o: SnapOptions,
)
    requires
        action == WindowAction::NextDisplay || action == WindowAction::PreviousDisplay,
    ensures
        plan_spec(m, key, action, false, Some(window), areas, o) == (match neighbour_for(
            action,
            areas,
        ) {
            None => (m, Command::Nothing),
            Some(d) => (
                remembered(m, key, window, o.update_restore_rect),
                Command::Move {
                    target: display_target_spec(d, o),
                    visible_bounds: false,
                    kind: MoveKind::Display,
                    action: WindowAction::Maximize,
                },
            ),
        }),
        neighbour_for(action, areas) == (if action == WindowAction::NextDisplay {
            areas.2
        } else {
            areas.1
        }),
        forall|d: Rect| o.gap == 0 ==> #[trigger] display_target_spec(d, o) == inset_spec(d, o),
        ({
            let (m1, c1) = plan_spec(m, key, action, false, Some(window), areas, o);
            let (m2, f2) = finish_spec(m1, key, c1, applied, o);
            c1 is Move ==> {
                &&& m2.0 == m1.0
                &&& m2.1 == (if applied {
                    m.1.insert(key, (WindowAction::Maximize, c1->target))
                } else {
                    m.1
                })
                &&& (f2.cursor is Some <==> applied && o.move_cursor_across_displays)
                &&& f2.focus == applied
            }
        }),
{
    assert forall|d: Rect| o.gap == 0 implies #[trigger] display_target_spec(d, o) == inset_spec(
        d,
        o,
    ) by {
        let i = inset_spec(d, o);
        assert(apply_gaps_spec(EngineRect::spec_from_rect(i), 0) == EngineRect::spec_from_rect(i));
    }
}

/// A move that the OS does not carry out records no last action and asks for
/// no cursor move or activation; the restore rectangle taken before the move
/// stays, so a later Undo still returns there.
pub proof fn lemma_failed_move(
    m: ManagerView,
    key: isize,
    action: WindowAction,
    window: Rect,
    areas: (Rect, Option<Rect>, Option<Rect>),
    o: SnapOptions,
)
    requires
        action != WindowAction::Undo,
        plan_spec(m, key, action, false, Some(window), areas, o).1 is Move,
    ensures
        ({
            let (m1, c1) = plan_spec(m, key, action, false, Some(window), areas, o);
            let (m2, f2) = finish_spec(m1, key, c1, false, o);
            &&& m2.0 == remembered(m, key, window, o.update_restore_rect).0
            &&& m2.1 == m.1
            &&& f2.cursor is None && !f2.focus
        }),
{
}

/// The actions that do nothing leave the memory unchanged: an excluded
/// process, an Undo without a restore rectangle, an unknown window rectangle,
/// a move past the first or last display (there is no wrap-around), and an
/// action the layout engine computes nothing for.
pub proof fn lemma_nothing_changes_nothing(
    m: ManagerView,
    key: isize,
    action: WindowAction,
    disabled: bool,
    window: Option<Rect>,
    areas: (Rect, Option<Rect>, Option<Rect>),
    applied: bool,
    o: SnapOptions,
)
    ensures
        plan_spec(m, key, action, disabled, window, areas, o).1 == Command::Nothing ==> plan_spec(
            m,
            key,
            action,
            disabled,
            window,
            areas,
            o,
        ).0 == m,
        finish_spec(m, key, Command::Nothing, applied, o).0 == m,
        disabled ==> plan_spec(m, key, action, disabled, window, areas, o).1 == Command::Nothing,
        action == WindowAction::Undo && !m.0.contains_key(key) ==> plan_spec(
            m,
            key,
            action,
            disabled,
            window,
            areas,
            o,
        ).1 == Command::Nothing,
        action != WindowAction::Undo && window is None ==> plan_spec(
            m,
            key,
            action,
            disabled,
            window,
            areas,
            o,
        ).1 == Command::Nothing,
        action == WindowAction::NextDisplay && areas.2 is None ==> plan_spec(
            m,
            key,
            action,
            disabled,
            window,
            areas,
            o,
        ).1 == Command::Nothing,
        action == WindowAction::PreviousDisplay && areas.1 is None ==> plan_spec(
            m,
            key,
            action,
            disabled,
            window,
            areas,
            o,
        ).1 == Command::Nothing,
{
}

/// Once a window is forgotten, an Undo on its handle does nothing.
pub proof fn lemma_forgotten_window_has_no_undo(
    m: ManagerView,
    key: isize,
    window: Option<Rect>,
    areas: (Rect, Option<Rect>, Option<Rect>),
    o: SnapOptions,
)
    ensures
        plan_spec(forgotten(m, key), key, WindowAction::Undo, false, window, areas, o).1
            == Command::Nothing,
        !forgotten(m, key).1.contains_key(key),
{
}

/// After a drag away from the snapped rectangle the window keeps the position
/// where it was dropped and gets back its pre-snap width and height; a window
/// still within the tolerance is left alone.
pub proof fn lemma_drag_restores_size(current: Rect, restore: Rect, snapped: Rect)
    requires
        fits_i32(current.left + restore.spec_width()),
        fits_i32(current.top + restore.spec_height()),
    ensures
        after_drag_spec(current, restore, snapped) matches Some(r) ==> {
            &&& r.left == current.left && r.top == current.top
            &&& r.spec_width() == restore.spec_width()
            &&& r.spec_height() == restore.spec_height()
        },
        after_drag_spec(current, restore, snapped) is None <==> current.spec_approximately_equals(
            snapped,
            DRAG_TOLERANCE as int,
        ),
{
}

/// A drag is acted on once: after the window has been given its rectangle and
/// its last action forgotten, the end of another drag asks for nothing.
pub proof fn lemma_drag_acted_on_once(m: ManagerView, key: isize, current: Option<Rect>, later: Option<Rect>)
    ensures
        drag_end_spec((m.0, m.1.remove(key)), key, later) is None,
        !m.1.contains_key(key) ==> drag_end_spec(m, key, current) is None,
        !m.0.contains_key(key) ==> drag_end_spec(m, key, current) is None,
{
}

/// With distinct display handles, the display after the current one has the
/// current one before it, and the other way round: going to the next display
/// and then to the previous one comes back to the work area one started from.
pub proof fn lemma_neighbours_are_mutual(ms: Seq<MonitorInfo>, i: int, info: Option<(Rect, Rect)>)
    requires
        0 <= i,
        i + 1 < ms.len(),
        forall|a: int, b: int|
            0 <= a < b < ms.len() ==> (#[trigger] ms[a]).hmonitor != (#[trigger] ms[b]).hmonitor,
    ensures
        work_areas_spec(ms, ms[i].hmonitor, info).2 == Some(ms[i + 1].work_area),
        work_areas_spec(ms, ms[i + 1].hmonitor, info).1 == Some(ms[i].work_area),
{
    lemma_monitor_index_distinct(ms, i);
    lemma_monitor_index_distinct(ms, i + 1);
}

proof fn lemma_monitor_index_distinct(ms: Seq<MonitorInfo>, i: int)
    requires
        0 <= i < ms.len(),
        forall|a: int, b: int|
            0 <= a < b < ms.len() ==> (#[trigger] ms[a]).hmonitor != (#[trigger] ms[b]).hmonitor,
    ensures
        monitor_index(ms, ms[i].hmonitor) == Some(i),
{
    let h = ms[i].hmonitor;
    assert(0 <= i < ms.len() && ms[i].hmonitor == h);
    let k = monitor_index(ms, h)->0;
    assert(ms[k].hmonitor == h);
    if k < i {
        assert(ms[k].hmonitor != ms[i].hmonitor);
    } else if k > i {
        assert(ms[i].hmonitor != ms[k].hmonitor);
    }
}

proof fn lemma_count_filter(s: Seq<MonitorInfo>, pred: spec_fn(MonitorInfo) -> bool, x: MonitorInfo)
    requires
        pred(x),
    ensures
        s.filter(pred).to_multiset().count(x) == s.to_multiset().count(x),
    decreases s.len(),
{
    broadcast use vstd::seq_lib::group_to_multiset_ensures;

    if s.len() > 0 {
        let s2 = s.drop_last();
        lemma_count_filter(s2, pred, x);
        s2.lemma_filter_push(s.last(), pred);
        assert(s2.push(s.last()) =~= s);
    }
}

/// Sorting the displays neither adds nor drops one: the sorted list holds each
/// display as many times as the given list.
pub proof fn lemma_sort_keeps_displays(input: Seq<MonitorInfo>, out: Seq<MonitorInfo>)
    requires
        stably_sorted(input, out),
    ensures
        out.to_multiset() == input.to_multiset(),
{
    assert forall|x: MonitorInfo| out.to_multiset().count(x) == input.to_multiset().count(x) by {
        let pred = at_corner(x.monitor_rect.left, x.monitor_rect.top);
        lemma_count_filter(out, pred, x);
        lemma_count_filter(input, pred, x);
        assert(out.filter(pred) == input.filter(pred));
    }
    assert(out.to_multiset() =~= input.to_multiset());
}

/// Sorted displays run left to right: a display whose left edge is further
/// left always comes first, whatever the top edges, and the top edge only
/// orders displays with the same left edge (upper first).
pub proof fn lemma_sorted_left_to_right(input: Seq<MonitorInfo>, out: Seq<MonitorInfo>)
    requires
        stably_sorted(input, out),
    ensures
        forall|i: int, j: int|
            0 <= i < j < out.len() ==> (#[trigger] out[i]).monitor_rect.left <= (
            #[trigger] out[j]).monitor_rect.left && (out[i].monitor_rect.left
                == out[j].monitor_rect.left ==> out[i].monitor_rect.top <= out[j].monitor_rect.top),
{
    assert forall|i: int, j: int| 0 <= i < j < out.len() implies (#[trigger] out[i]).monitor_rect.left
        <= (#[trigger] out[j]).monitor_rect.left && (out[i].monitor_rect.left
        == out[j].monitor_rect.left ==> out[i].monitor_rect.top <= out[j].monitor_rect.top) by {
        assert(!monitor_before(out[j], out[i]));
    }
}

/// The screen-edge gaps come off their own sides: the top gap moves the top
/// edge down, the bottom gap the bottom edge up, the left gap the left edge
/// right and the right gap the right edge left.
pub proof fn lemma_inset_sides(work: Rect, o: SnapOptions)
    requires
        inset_fits(work, o),
    ensures
        inset_spec(work, o).left == work.left + o.screen_edge_gap_left,
        inset_spec(work, o).top == work.top + o.screen_edge_gap_top,
        inset_spec(work, o).right == work.right - o.screen_edge_gap_right,
        inset_spec(work, o).bottom == work.bottom - o.screen_edge_gap_bottom,
{
}

/// The cursor goes to the middle of the window: half its width (rounded
/// towards zero) right of its left edge and half its height below its top;
/// after a snap only when `move_cursor_after_snap` is set, after a move to
/// another display only when `move_cursor_across_displays` is set.
pub proof fn lemma_cursor_in_middle(r: Rect, o: SnapOptions, across_displays: bool)
    requires
        fits_i32(r.spec_width()),
        fits_i32(r.spec_height()),
    ensures
        cursor_spec(r, o, across_displays) is Some <==> (if across_displays {
            o.move_cursor_across_displays
        } else {
            o.move_cursor_after_snap
        }),
        cursor_spec(r, o, across_displays) matches Some(p) ==> p.0 == r.left + tdiv(
            r.right - r.left,
            2,
        ) && p.1 == r.top + tdiv(r.bottom - r.top, 2),
        r.spec_width() >= 0 && r.spec_height() >= 0 ==> (cursor_spec(r, o, across_displays) matches Some(
            p,
        ) ==> r.left <= p.0 <= r.right && r.top <= p.1 <= r.bottom),
{
}

/// A dragged window counts as still snapped while each of its edges lies
/// within 5 pixels of the snapped rectangle's.
pub proof fn lemma_drag_tolerance(current: Rect, restore: Rect, snapped: Rect)
    ensures
        after_drag_spec(current, restore, snapped) is None <==> (abs_int(current.left - snapped.left)
            <= 5 && abs_int(current.top - snapped.top) <= 5 && abs_int(current.right
            - snapped.right) <= 5 && abs_int(current.bottom - snapped.bottom) <= 5),
{
}

/// Tool windows (extended style bit 0x80) are never moved, nor are the shell's
/// taskbars (`Shell_TrayWnd`, `Shell_SecondaryTrayWnd`), desktop (`Progman`,
/// `WorkerW`), Start menu and search (`Windows.UI.Core.CoreWindow`) and tray
/// overflow popups (`NotifyIconOverflowWindow`,
/// `TopLevelWindowForOverflowXamlIsland`); every other window is.
pub proof fn lemma_snappable_windows(ex_style: u32, class: Seq<char>)
    ensures
        snappable_spec(ex_style, class) <==> (ex_style & 0x80u32 == 0 && class != "Shell_TrayWnd"@
            && class != "Shell_SecondaryTrayWnd"@ && class != "Progman"@ && class != "WorkerW"@
            && class != "Windows.UI.Core.CoreWindow"@ && class != "NotifyIconOverflowWindow"@
            && class != "TopLevelWindowForOverflowXamlIsland"@),
{
}

/// Actions are disabled for a window exactly when a non-empty list of process
/// names is given, the window's process name is known, and one listed name
/// equals it up to ASCII case.
pub proof fn lemma_disabled_processes(names: Option<Seq<Seq<char>>>, name: Option<Seq<char>>)
    ensures
        process_disabled_spec(names, name) <==> (names is Some && name is Some && names->0.len() > 0
            && exists|i: int|
            0 <= i < names->0.len() && crate::text::ascii_lower_seq(#[trigger] names->0[i])
                == crate::text::ascii_lower_seq(name->0)),
{
}

/// The current work area is the one the OS reported for the current display
/// (the second rectangle it reported, not the monitor rectangle); with no
/// displays, or no report, it is the empty rectangle.
pub proof fn lemma_current_work_area(ms: Seq<MonitorInfo>, current: isize, info: Option<(Rect, Rect)>)
    ensures
        ms.len() > 0 && info is Some ==> work_areas_spec(ms, current, info).0 == (info->0).1,
        ms.len() == 0 || info is None ==> work_areas_spec(ms, current, info).0 == (Rect {
            left: 0,
            top: 0,
            right: 0,
            bottom: 0,
        }),
        ms.len() == 0 ==> work_areas_spec(ms, current, info).1 is None && work_areas_spec(
            ms,
            current,
            info,
        ).2 is None,
{
}

/// A window moved to another display gets that display's work area with the
/// screen-edge gaps taken off their own sides and then the window gap taken
/// off every side.
pub proof fn lemma_display_target_edges(d: Rect, o: SnapOptions)
    requires
        inset_fits(d, o),
        gap_fits(EngineRect::spec_from_rect(inset_spec(d, o)), o.gap as int),
    ensures
        display_target_spec(d, o).left == d.left + o.screen_edge_gap_left + o.gap,
        display_target_spec(d, o).top == d.top + o.screen_edge_gap_top + o.gap,
        display_target_spec(d, o).right == d.right - o.screen_edge_gap_right - o.gap,
        display_target_spec(d, o).bottom == d.bottom - o.screen_edge_gap_bottom - o.gap,
{
}

/// Where a layout action puts a window: nothing when the inset work area is
/// the all-zero rectangle; otherwise the engine's rectangle for the window
/// and the inset work area, with the window gap taken off every side exactly
/// when the gap applies.
pub proof fn lemma_snap_target_parts(window: Rect, work_area: Rect, action: WindowAction, o: SnapOptions)
    ensures
        ({
            let w = inset_spec(work_area, o);
            let zero = w.left == 0 && w.top == 0 && w.right == 0 && w.bottom == 0;
            let c = calculate_spec(
                EngineRect::spec_from_rect(window),
                EngineRect::spec_from_rect(w),
                action,
                section_ratios_spec(o.thirds_layout_mode@),
            );
            &&& zero ==> snap_target_spec(window, work_area, action, o) is None
            &&& !zero && c is None ==> snap_target_spec(window, work_area, action, o) is None
            &&& (!zero && c is Some) ==> snap_target_spec(window, work_area, action, o)
                == Some(
                if gaps_apply(action, o) {
                    (Rect {
                        left: ((c->0).left + o.gap) as i32,
                        top: ((c->0).top + o.gap) as i32,
                        right: ((c->0).right - o.gap) as i32,
                        bottom: ((c->0).bottom - o.gap) as i32,
                    })
                } else {
                    (Rect {
                        left: (c->0).left,
                        top: (c->0).top,
                        right: (c->0).right,
                        bottom: (c->0).bottom,
                    })
                },
            )
        }),
{
}

} // verus!
