use rectanglewin::engine::WindowAction;
use rectanglewin::manager::{
    current_and_adjacent_work_areas, cursor_target, display_move_in_range, display_move_target,
    drag_in_range, finish_in_range, inset_work_area_by_screen_edge_gaps, is_process_disabled,
    is_snappable_window, plan_in_range, rect_after_drag, size_in_range, snap_in_range,
    sort_monitors, Command, MonitorInfo, MoveKind, SnapOptions, WindowManager,
};
use rectanglewin::rect::Rect;

fn r(left: i32, top: i32, right: i32, bottom: i32) -> Rect {
    Rect { left, top, right, bottom }
}

fn opts() -> SnapOptions {
    SnapOptions {
        gap: 0,
        screen_edge_gap_top: 0,
        screen_edge_gap_bottom: 0,
        screen_edge_gap_left: 0,
        screen_edge_gap_right: 0,
        update_restore_rect: true,
        apply_gaps_to_maximize: true,
        move_cursor_after_snap: false,
        move_cursor_across_displays: false,
        thirds_layout_mode: "Thirds".to_string(),
    }
}

#[test]
fn manager_remembers_restore_and_last_action() {
    let mut m = WindowManager::new();
    assert_eq!(m.get_restore_rect(7), None);
    m.remember_restore_rect(7, r(1, 2, 3, 4), true);
    m.remember_restore_rect(8, r(5, 6, 7, 8), false);
    assert_eq!(m.get_restore_rect(7), Some(r(1, 2, 3, 4)));
    assert_eq!(m.get_restore_rect(8), None);
    m.finish_move(7, WindowAction::LeftHalf, r(0, 0, 50, 90), false);
    assert_eq!(m.get_last_action_rect(7), None);
    m.finish_move(7, WindowAction::LeftHalf, r(0, 0, 50, 90), true);
    assert_eq!(m.get_last_action(7), Some((WindowAction::LeftHalf, r(0, 0, 50, 90))));
    m.finish_undo(7, false);
    assert_eq!(m.get_last_action_rect(7), Some(r(0, 0, 50, 90)));
    m.finish_undo(7, true);
    assert_eq!(m.get_last_action_rect(7), None);
    assert_eq!(m.get_restore_rect(7), Some(r(1, 2, 3, 4)));
    m.record_last_action(9, WindowAction::Maximize, r(0, 0, 1, 1));
    m.remove_last_action(9);
    assert_eq!(m.get_last_action(9), None);
}

#[test]
fn snap_targets_with_gaps() {
    let m = WindowManager::new();
    let mut o = opts();
    o.gap = -2;
    o.screen_edge_gap_left = 10;
    let work = r(0, 0, 110, 90);
    assert!(snap_in_range(r(0, 0, 10, 10), work, WindowAction::LeftHalf, &o));
    assert_eq!(
        m.snap_target(1, WindowAction::LeftHalf, r(0, 0, 10, 10), work, &o),
        Some((r(8, -2, 62, 92), WindowAction::LeftHalf))
    );
    // Centre never gets the gap.
    assert_eq!(
        m.snap_target(1, WindowAction::Center, r(0, 0, 20, 20), work, &o),
        Some((r(50, 35, 70, 55), WindowAction::Center))
    );
    o.apply_gaps_to_maximize = false;
    assert_eq!(
        m.snap_target(1, WindowAction::Maximize, r(0, 0, 20, 20), work, &o),
        Some((r(10, 0, 110, 90), WindowAction::Maximize))
    );
    assert_eq!(m.snap_target(1, WindowAction::Undo, r(0, 0, 20, 20), work, &o), None);
    // An empty work area gives nothing.
    assert_eq!(m.snap_target(1, WindowAction::LeftHalf, r(0, 0, 20, 20), r(-10, 0, 0, 0), &o), None);
    assert!(!snap_in_range(r(0, 0, 1, 1), r(i32::MIN, 0, i32::MAX, 10), WindowAction::LeftHalf, &o));
}

#[test]
fn moving_to_another_display() {
    let mut o = opts();
    o.gap = 4;
    o.screen_edge_gap_top = 1;
    o.screen_edge_gap_bottom = 2;
    o.screen_edge_gap_right = 3;
    assert_eq!(inset_work_area_by_screen_edge_gaps(r(0, 0, 100, 100), &o), r(0, 1, 97, 98));
    assert!(display_move_in_range(r(0, 0, 100, 100), &o));
    assert_eq!(display_move_target(r(0, 0, 100, 100), &o), r(4, 5, 93, 94));
    assert!(!display_move_in_range(r(0, i32::MAX, 10, 10), &o));
    let monitors = vec![
        MonitorInfo { hmonitor: 11, monitor_rect: r(0, 0, 100, 100), work_area: r(0, 0, 100, 90) },
        MonitorInfo { hmonitor: 22, monitor_rect: r(100, 0, 200, 100), work_area: r(100, 0, 200, 90) },
        MonitorInfo { hmonitor: 33, monitor_rect: r(200, 0, 300, 100), work_area: r(200, 0, 300, 90) },
    ];
    let info = Some((r(100, 0, 200, 100), r(100, 0, 200, 90)));
    assert_eq!(
        current_and_adjacent_work_areas(&monitors, 22, info),
        (r(100, 0, 200, 90), Some(r(0, 0, 100, 90)), Some(r(200, 0, 300, 90)))
    );
    assert_eq!(current_and_adjacent_work_areas(&monitors, 11, None), (Rect::default(), None, Some(r(100, 0, 200, 90))));
    assert_eq!(current_and_adjacent_work_areas(&monitors, 44, info), (r(100, 0, 200, 90), None, None));
    assert_eq!(current_and_adjacent_work_areas(&Vec::new(), 22, info), (Rect::default(), None, None));
}

#[test]
fn displays_sort_left_to_right_then_top_to_bottom() {
    let a = MonitorInfo { hmonitor: 1, monitor_rect: r(1920, 0, 3840, 1080), work_area: r(1920, 0, 3840, 1040) };
    let b = MonitorInfo { hmonitor: 2, monitor_rect: r(0, 0, 1920, 1080), work_area: r(0, 0, 1920, 1040) };
    let c = MonitorInfo { hmonitor: 3, monitor_rect: r(0, -1080, 1920, 0), work_area: r(0, -1080, 1920, -40) };
    let d = MonitorInfo { hmonitor: 4, monitor_rect: r(0, 0, 800, 600), work_area: r(0, 0, 800, 560) };
    let sorted = sort_monitors(vec![a, b, c, d]);
    let handles: Vec<isize> = sorted.iter().map(|m| m.hmonitor).collect();
    assert_eq!(handles, vec![3, 2, 4, 1]);
    assert!(sort_monitors(Vec::new()).is_empty());
}

#[test]
fn cursor_process_and_drag_decisions() {
    let mut o = opts();
    assert!(size_in_range(r(0, 0, 101, 51)));
    assert_eq!(cursor_target(r(0, 0, 101, 51), &o, false), None);
    o.move_cursor_after_snap = true;
    assert_eq!(cursor_target(r(0, 0, 101, 51), &o, false), Some((50, 25)));
    assert_eq!(cursor_target(r(0, 0, 101, 51), &o, true), None);
    o.move_cursor_across_displays = true;
    assert_eq!(cursor_target(r(-100, -50, 0, 0), &o, true), Some((-50, -25)));

    let names = Some(vec!["Notepad.exe".to_string(), "calc.exe".to_string()]);
    assert!(is_process_disabled(&names, &Some("NOTEPAD.EXE".to_string())));
    assert!(!is_process_disabled(&names, &Some("explorer.exe".to_string())));
    assert!(!is_process_disabled(&names, &None));
    assert!(!is_process_disabled(&Some(Vec::new()), &Some("calc.exe".to_string())));
    assert!(!is_process_disabled(&None, &Some("calc.exe".to_string())));

    let snapped = r(0, 0, 50, 90);
    let restore = r(10, 10, 410, 310);
    assert!(drag_in_range(r(3, 2, 52, 95), restore, snapped));
    assert_eq!(rect_after_drag(r(3, 2, 52, 95), restore, snapped), None);
    assert_eq!(rect_after_drag(r(200, 100, 250, 190), restore, snapped), Some(r(200, 100, 600, 400)));
    assert!(!drag_in_range(r(i32::MIN, 0, 0, 0), restore, r(1, 0, 0, 0)));
}

#[test]
fn next_then_previous_display_comes_back() {
    let monitors = vec![
        MonitorInfo { hmonitor: 5, monitor_rect: r(-800, 0, 0, 600), work_area: r(-800, 0, 0, 560) },
        MonitorInfo { hmonitor: 6, monitor_rect: r(0, 0, 1920, 1080), work_area: r(0, 0, 1920, 1040) },
    ];
    let (_, _, next) = current_and_adjacent_work_areas(&monitors, 5, None);
    assert_eq!(next, Some(monitors[1].work_area));
    let (_, prev, next_of_next) = current_and_adjacent_work_areas(&monitors, 6, None);
    assert_eq!(prev, Some(monitors[0].work_area));
    assert_eq!(next_of_next, None);
}

#[test]
fn snap_then_undo_through_plan_and_finish() {
    let mut m = WindowManager::new();
    let mut o = opts();
    o.move_cursor_after_snap = true;
    let window = r(10, 20, 30, 40);
    let areas = (r(0, 0, 100, 90), None, None);
    assert!(plan_in_range(WindowAction::LeftHalf, false, Some(window), areas, &o));
    let c = m.plan(7, WindowAction::LeftHalf, false, Some(window), areas, &o);
    assert_eq!(
        c,
        Command::Move {
            target: r(0, 0, 50, 90),
            visible_bounds: true,
            kind: MoveKind::Snap,
            action: WindowAction::LeftHalf
        }
    );
    assert_eq!(m.get_restore_rect(7), Some(window));
    assert!(finish_in_range(c, true, &o));
    let f = m.finish(7, c, true, &o);
    assert_eq!(f.cursor, Some((25, 45)));
    assert!(!f.focus);
    assert_eq!(m.get_last_action(7), Some((WindowAction::LeftHalf, r(0, 0, 50, 90))));
    // Undo goes back to where the window was, and forgets the snap once applied.
    let u = m.plan(7, WindowAction::Undo, false, None, (Rect::default(), None, None), &o);
    assert_eq!(
        u,
        Command::Move { target: window, visible_bounds: true, kind: MoveKind::Undo, action: WindowAction::Undo }
    );
    let f = m.finish(7, u, true, &o);
    assert_eq!(f.cursor, None);
    assert_eq!(m.get_last_action(7), None);
    assert_eq!(m.get_restore_rect(7), Some(window));
}

#[test]
fn failed_moves_and_actions_that_do_nothing() {
    let mut m = WindowManager::new();
    let o = opts();
    let window = r(10, 20, 30, 40);
    let areas = (r(0, 0, 100, 90), Some(r(-100, 0, 0, 90)), None);
    // A failed move keeps the restore rectangle but records no last action.
    let c = m.plan(3, WindowAction::Maximize, false, Some(window), areas, &o);
    let f = m.finish(3, c, false, &o);
    assert_eq!(f.cursor, None);
    assert!(!f.focus);
    assert_eq!(m.get_restore_rect(3), Some(window));
    assert_eq!(m.get_last_action(3), None);
    // No display after the last one, no restore rectangle, excluded process, unknown window.
    assert_eq!(m.plan(3, WindowAction::NextDisplay, false, Some(window), areas, &o), Command::Nothing);
    assert_eq!(m.plan(4, WindowAction::Undo, false, Some(window), areas, &o), Command::Nothing);
    assert_eq!(m.plan(3, WindowAction::LeftHalf, true, Some(window), areas, &o), Command::Nothing);
    assert_eq!(m.plan(3, WindowAction::LeftHalf, false, None, areas, &o), Command::Nothing);
    // The previous display exists: the window goes there and is brought to the front.
    let d = m.plan(3, WindowAction::PreviousDisplay, false, Some(window), areas, &o);
    assert_eq!(
        d,
        Command::Move {
            target: r(-100, 0, 0, 90),
            visible_bounds: false,
            kind: MoveKind::Display,
            action: WindowAction::Maximize
        }
    );
    let f = m.finish(3, d, true, &o);
    assert!(f.focus);
    assert_eq!(f.cursor, None);
    assert_eq!(m.get_last_action(3), Some((WindowAction::Maximize, r(-100, 0, 0, 90))));
}

#[test]
fn forgetting_a_window_and_ending_a_drag() {
    let mut m = WindowManager::new();
    m.remember_restore_rect(9, r(10, 10, 410, 310), true);
    m.record_last_action(9, WindowAction::LeftHalf, r(0, 0, 50, 90));
    assert!(m.drag_end_in_range(9, Some(r(3, 2, 52, 95))));
    assert_eq!(m.drag_end(9, Some(r(3, 2, 52, 95))), None);
    assert_eq!(m.drag_end(9, Some(r(200, 100, 250, 190))), Some(r(200, 100, 600, 400)));
    assert_eq!(m.drag_end(9, None), None);
    m.remove_last_action(9);
    assert_eq!(m.drag_end(9, Some(r(200, 100, 250, 190))), None);
    m.record_last_action(9, WindowAction::LeftHalf, r(0, 0, 50, 90));
    m.forget_window(9);
    assert_eq!(m.get_restore_rect(9), None);
    assert_eq!(m.get_last_action(9), None);
    assert_eq!(m.plan(9, WindowAction::Undo, false, None, (Rect::default(), None, None), &opts()), Command::Nothing);
}

#[test]
fn shell_surfaces_and_tool_windows_are_not_moved() {
    assert!(is_snappable_window(0, "Notepad"));
    assert!(is_snappable_window(0x100, "ApplicationFrameWindow"));
    assert!(!is_snappable_window(0x80, "Notepad"));
    assert!(!is_snappable_window(0, "Shell_TrayWnd"));
    assert!(!is_snappable_window(0, "Windows.UI.Core.CoreWindow"));
    assert!(!is_snappable_window(0, "NotifyIconOverflowWindow"));
    assert!(!is_snappable_window(0, "Progman"));
    assert!(is_snappable_window(0, "shell_traywnd"));
}
