use snip_core::geometry::Rect;
use snip_core::monitor::{find_monitor_for_element, needs_reposition, to_window_local};
use snip_core::query::UIElementInfo;

fn info_at(global_x: i64, global_y: i64) -> UIElementInfo {
    UIElementInfo {
        x: global_x,
        y: global_y,
        width: 10,
        height: 10,
        global_x,
        global_y,
        window_id: 0,
        role: "AXImage".to_string(),
    }
}

#[test]
fn coordinate_transform_round_trip() {
    // Window at logical (100, 50), element at global (150, 80): local
    // coordinates are (50, 30), and re-adding the window position restores
    // the global coordinates exactly.
    let mut info = info_at(150, 80);
    to_window_local(&mut info, 100, 50);
    assert_eq!((info.x, info.y), (50, 30));
    assert_eq!((info.x + 100, info.y + 50), (info.global_x, info.global_y));
    assert_eq!((info.global_x, info.global_y), (150, 80));
}

#[test]
fn transform_leaves_rectangle_and_metadata_untouched() {
    let mut info = info_at(150, 80);
    to_window_local(&mut info, 100, 50);
    assert_eq!((info.width, info.height), (10, 10));
    assert_eq!(info.window_id, 0);
    assert_eq!(info.role, "AXImage");
}

#[test]
fn first_containing_monitor_is_selected() {
    let monitors = vec![
        Rect { x: 0, y: 0, width: 1440, height: 900 },
        Rect { x: 1440, y: 0, width: 1920, height: 1080 },
    ];
    assert_eq!(find_monitor_for_element(&monitors, 100, 100), Some(0));
    assert_eq!(find_monitor_for_element(&monitors, 2000, 500), Some(1));
}

#[test]
fn monitor_bounds_are_half_open() {
    let monitors = vec![
        Rect { x: 0, y: 0, width: 1440, height: 900 },
        Rect { x: 1440, y: 0, width: 1920, height: 1080 },
    ];
    // The seam column belongs to the second monitor, not the first.
    assert_eq!(find_monitor_for_element(&monitors, 1440, 100), Some(1));
}

#[test]
fn no_monitor_contains_the_point() {
    let monitors = vec![Rect { x: 0, y: 0, width: 1440, height: 900 }];
    assert_eq!(find_monitor_for_element(&monitors, -5, 100), None);
    assert_eq!(find_monitor_for_element(&monitors, 100, 900), None);
    let none: Vec<Rect> = Vec::new();
    assert_eq!(find_monitor_for_element(&none, 0, 0), None);
}

#[test]
fn reposition_only_when_monitor_changes() {
    assert!(needs_reposition(None, 0, 0));
    assert!(needs_reposition(Some((0, 0)), 1440, 0));
    assert!(!needs_reposition(Some((1440, 0)), 1440, 0));
}
