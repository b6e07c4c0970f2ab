use rectanglewin::engine::{
    apply_gaps, calculate, section_ratios, CalculationParams, LastActionInfo, WindowAction,
};
use rectanglewin::rect::EngineRect;

fn params(action: WindowAction, thirds_layout_mode: &str) -> CalculationParams {
    CalculationParams {
        window_rect: EngineRect {
            left: 10,
            top: 20,
            right: 30,
            bottom: 40,
        },
        work_area: EngineRect {
            left: 0,
            top: 0,
            right: 100,
            bottom: 90,
        },
        action,
        last_action: None,
        thirds_layout_mode: thirds_layout_mode.into(),
    }
}

#[test]
fn window_action_string_conversions_cover_known_actions() {
    let actions = [
        ("LeftHalf", WindowAction::LeftHalf),
        ("RightHalf", WindowAction::RightHalf),
        ("TopHalf", WindowAction::TopHalf),
        ("BottomHalf", WindowAction::BottomHalf),
        ("Maximize", WindowAction::Maximize),
        ("Center", WindowAction::Center),
        ("Undo", WindowAction::Undo),
        ("Restore", WindowAction::Undo),
        ("LowerLeft", WindowAction::LowerLeft),
        ("LowerRight", WindowAction::LowerRight),
        ("UpperLeft", WindowAction::UpperLeft),
        ("UpperRight", WindowAction::UpperRight),
        ("NextDisplay", WindowAction::NextDisplay),
        ("PreviousDisplay", WindowAction::PreviousDisplay),
        ("FirstThird", WindowAction::FirstThird),
        ("FirstTwoThirds", WindowAction::FirstTwoThirds),
        ("CenterThird", WindowAction::CenterThird),
        ("LastTwoThirds", WindowAction::LastTwoThirds),
        ("LastThird", WindowAction::LastThird),
    ];

    for (name, action) in actions {
        assert_eq!(WindowAction::from_str(name), Some(action));
        if name != "Restore" {
            assert_eq!(action.name(), name);
        }
    }

    assert_eq!(WindowAction::from_str("MissingAction"), None);
}

#[test]
fn action_categories_match_expected_behavior() {
    assert!(WindowAction::LeftHalf.has_calculation());
    assert!(WindowAction::CenterThird.has_calculation());
    assert!(!WindowAction::Undo.has_calculation());
    assert!(!WindowAction::NextDisplay.has_calculation());
    assert!(!WindowAction::PreviousDisplay.has_calculation());

    assert!(WindowAction::FirstThird.is_section_action());
    assert!(WindowAction::CenterThird.is_section_action());
    assert!(WindowAction::LastThird.is_section_action());
    assert!(!WindowAction::LeftHalf.is_section_action());
    assert!(!WindowAction::Undo.is_section_action());
}

#[test]
fn section_ratios_normalize_layout_modes() {
    assert_eq!(section_ratios("Thirds"), (1, 1, 1));
    assert_eq!(section_ratios("Fourths"), (1, 2, 1));
    assert_eq!(section_ratios("Fifths"), (1, 3, 1));
    assert_eq!(section_ratios("unknown"), (1, 1, 1));
}

#[test]
fn calculate_returns_expected_rects_for_core_actions() {
    let left = calculate(&params(WindowAction::LeftHalf, "Thirds")).unwrap();
    assert_eq!(
        left.rect,
        EngineRect {
            left: 0,
            top: 0,
            right: 50,
            bottom: 90,
        }
    );
    assert_eq!(left.resulting_action, WindowAction::LeftHalf);

    let center = calculate(&params(WindowAction::Center, "Thirds")).unwrap();
    assert_eq!(
        center.rect,
        EngineRect {
            left: 40,
            top: 35,
            right: 60,
            bottom: 55,
        }
    );

    let maximize = calculate(&params(WindowAction::Maximize, "Thirds")).unwrap();
    assert_eq!(
        maximize.rect,
        EngineRect {
            left: 0,
            top: 0,
            right: 100,
            bottom: 90,
        }
    );
}

#[test]
fn calculate_uses_section_layout_ratios() {
    let first = calculate(&params(WindowAction::FirstThird, "Fifths")).unwrap();
    assert_eq!(first.rect.right, 20);

    let first_two = calculate(&params(WindowAction::FirstTwoThirds, "Fifths")).unwrap();
    assert_eq!(first_two.rect.right, 80);

    let center = calculate(&params(WindowAction::CenterThird, "Fifths")).unwrap();
    assert_eq!(
        center.rect,
        EngineRect {
            left: 20,
            top: 0,
            right: 80,
            bottom: 90,
        }
    );

    let last = calculate(&params(WindowAction::LastThird, "Fifths")).unwrap();
    assert_eq!(
        last.rect,
        EngineRect {
            left: 80,
            top: 0,
            right: 100,
            bottom: 90,
        }
    );
}

#[test]
fn calculate_returns_none_for_non_calculated_actions() {
    assert!(calculate(&params(WindowAction::Undo, "Thirds")).is_none());
    assert!(calculate(&params(WindowAction::NextDisplay, "Thirds")).is_none());
    assert!(calculate(&params(WindowAction::PreviousDisplay, "Thirds")).is_none());
}

#[test]
fn apply_gaps_supports_positive_negative_and_zero_values() {
    let rect = EngineRect {
        left: 0,
        top: 0,
        right: 100,
        bottom: 100,
    };

    assert_eq!(apply_gaps(rect, 0.0f32 as i32), rect);
    assert_eq!(
        apply_gaps(rect, 4.0f32 as i32),
        EngineRect {
            left: 4,
            top: 4,
            right: 96,
            bottom: 96,
        }
    );
    assert_eq!(
        apply_gaps(rect, -2.0f32 as i32),
        EngineRect {
            left: -2,
            top: -2,
            right: 102,
            bottom: 102,
        }
    );
}

#[test]
fn halves_and_quarters_of_an_odd_work_area() {
    let mut p = params(WindowAction::RightHalf, "Thirds");
    p.work_area = EngineRect { left: 10, top: 20, right: 111, bottom: 121 };
    let right = calculate(&p).unwrap().rect;
    assert_eq!(right, EngineRect { left: 60, top: 20, right: 111, bottom: 121 });
    p.action = WindowAction::LeftHalf;
    let left = calculate(&p).unwrap().rect;
    assert_eq!(left.right, right.left);
    p.action = WindowAction::TopHalf;
    assert_eq!(calculate(&p).unwrap().rect, EngineRect { left: 10, top: 20, right: 111, bottom: 70 });
    p.action = WindowAction::BottomHalf;
    assert_eq!(calculate(&p).unwrap().rect, EngineRect { left: 10, top: 70, right: 111, bottom: 121 });
    p.action = WindowAction::UpperLeft;
    assert_eq!(calculate(&p).unwrap().rect, EngineRect { left: 10, top: 20, right: 60, bottom: 70 });
    p.action = WindowAction::UpperRight;
    assert_eq!(calculate(&p).unwrap().rect, EngineRect { left: 60, top: 20, right: 111, bottom: 70 });
    p.action = WindowAction::LowerLeft;
    assert_eq!(calculate(&p).unwrap().rect, EngineRect { left: 10, top: 70, right: 60, bottom: 121 });
    p.action = WindowAction::LowerRight;
    assert_eq!(calculate(&p).unwrap().rect, EngineRect { left: 60, top: 70, right: 111, bottom: 121 });
}

#[test]
fn sections_tile_for_every_layout_mode() {
    for mode in ["Thirds", "fourths", "FIFTHS", "other"] {
        let first = calculate(&params(WindowAction::FirstThird, mode)).unwrap().rect;
        let center = calculate(&params(WindowAction::CenterThird, mode)).unwrap().rect;
        let last = calculate(&params(WindowAction::LastThird, mode)).unwrap().rect;
        let first_two = calculate(&params(WindowAction::FirstTwoThirds, mode)).unwrap().rect;
        let last_two = calculate(&params(WindowAction::LastTwoThirds, mode)).unwrap().rect;
        assert_eq!(first.left, 0);
        assert_eq!(first.right, center.left);
        assert_eq!(center.right, last.left);
        assert_eq!(last.right, 100);
        assert_eq!(first_two.right, center.right);
        assert_eq!(last_two.left, center.left);
    }
    let fourths = calculate(&params(WindowAction::CenterThird, "Fourths")).unwrap().rect;
    assert_eq!((fourths.left, fourths.right), (25, 75));
    let thirds = calculate(&params(WindowAction::LastTwoThirds, "Thirds")).unwrap().rect;
    assert_eq!((thirds.left, thirds.right), (33, 100));
}

#[test]
fn center_of_a_window_larger_than_the_work_area() {
    let mut p = params(WindowAction::Center, "Thirds");
    p.window_rect = EngineRect { left: 0, top: 0, right: 121, bottom: 91 };
    p.last_action = Some(LastActionInfo { rect: p.window_rect, action: WindowAction::LeftHalf });
    let c = calculate(&p).unwrap();
    // (100 - 121) / 2 rounds towards zero to -10.
    assert_eq!(c.rect, EngineRect { left: -10, top: 0, right: 111, bottom: 91 });
    assert_eq!(c.resulting_action, WindowAction::Center);
}

#[test]
fn negative_work_area_coordinates() {
    let mut p = params(WindowAction::FirstThird, "Thirds");
    p.work_area = EngineRect { left: -1920, top: -50, right: 0, bottom: 1030 };
    assert_eq!(calculate(&p).unwrap().rect.right, -1280);
    p.action = WindowAction::LeftHalf;
    assert_eq!(calculate(&p).unwrap().rect.right, -960);
}

#[test]
fn action_names_are_exact() {
    assert_eq!(WindowAction::from_str("lefthalf"), None);
    assert_eq!(WindowAction::from_str(" LeftHalf"), None);
    assert_eq!(WindowAction::from_str(""), None);
    assert_eq!(WindowAction::Undo.name(), "Undo");
    assert!(WindowAction::Maximize.has_calculation());
    assert!(!WindowAction::Center.is_section_action());
}
