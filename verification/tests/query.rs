use snip_core::geometry::Rect;
use snip_core::hittest::UiNode;
use snip_core::query::{element_at_point, resolve_element, ACCESSIBILITY_RECURSION_LIMIT};

fn leaf(x: i64, y: i64, w: i64, h: i64, role: Option<&str>) -> UiNode {
    UiNode {
        geometry: Some(Rect { x, y, width: w, height: h }),
        role: role.map(|r| r.to_string()),
        children: Vec::new(),
    }
}

#[test]
fn descent_stops_at_recursion_limit() {
    // A chain of 61 strictly-smaller nested elements under the point: the
    // query must stop after exactly 50 steps and return the element at that
    // depth, not the innermost one.
    let depth: usize = 60;
    let mut current = leaf(0, 0, 100 - depth as i64, 1, Some("AXGroup"));
    for level in (0..depth).rev() {
        current = UiNode {
            geometry: Some(Rect { x: 0, y: 0, width: 100 - level as i64, height: 1 }),
            role: Some("AXGroup".to_string()),
            children: vec![current],
        };
    }
    let reached = resolve_element(&current, 0, 0);
    let g = reached.geometry.expect("the reached element has geometry");
    assert_eq!(g.width, 100 - ACCESSIBILITY_RECURSION_LIMIT as i64);
    assert_eq!(reached.children.len(), 1);
}

#[test]
fn descent_stops_where_no_child_qualifies() {
    // Depth well under the limit: the innermost containing element wins.
    let inner = leaf(2, 2, 4, 4, Some("AXImage"));
    let middle = UiNode {
        geometry: Some(Rect { x: 1, y: 1, width: 20, height: 20 }),
        role: Some("AXGroup".to_string()),
        children: vec![inner],
    };
    let root = UiNode {
        geometry: Some(Rect { x: 0, y: 0, width: 100, height: 100 }),
        role: Some("AXWebArea".to_string()),
        children: vec![middle],
    };
    let info = element_at_point(&root, 3, 3, 0).expect("an element is resolved");
    assert_eq!((info.x, info.y, info.width, info.height), (2, 2, 4, 4));
    assert_eq!(info.role, "AXImage");
}

#[test]
fn root_without_children_returns_own_geometry_and_role() {
    // No child attribute at all: zero replacements, the root itself is the
    // result.
    let root = leaf(7, 8, 30, 40, Some("AXButton"));
    let info = element_at_point(&root, 10, 10, 0).expect("the root is resolved");
    assert_eq!((info.x, info.y), (7, 8));
    assert_eq!((info.width, info.height), (30, 40));
    assert_eq!((info.global_x, info.global_y), (7, 8));
    assert_eq!(info.role, "AXButton");
    assert_eq!(info.window_id, 0);
}

#[test]
fn missing_geometry_on_final_element_returns_none() {
    // The final element's geometry is unreadable: the query yields nothing,
    // even though the role was readable.
    let root = UiNode {
        geometry: None,
        role: Some("AXWindow".to_string()),
        children: Vec::new(),
    };
    assert!(element_at_point(&root, 10, 10, 0).is_none());
}

#[test]
fn unreadable_role_defaults_to_unknown() {
    let root = leaf(0, 0, 10, 10, None);
    let info = element_at_point(&root, 5, 5, 0).expect("the root is resolved");
    assert_eq!(info.role, "Unknown");
}

#[test]
fn window_identifier_is_carried_through() {
    let root = leaf(0, 0, 10, 10, Some("AXWindow"));
    let info = element_at_point(&root, 5, 5, 42).expect("the root is resolved");
    assert_eq!(info.window_id, 42);
}

#[test]
fn global_and_local_start_out_equal() {
    let root = leaf(12, 34, 10, 10, Some("AXImage"));
    let info = element_at_point(&root, 15, 35, 0).expect("the root is resolved");
    assert_eq!((info.x, info.y), (info.global_x, info.global_y));
}
