use snip_core::geometry::Rect;
use snip_core::role::{classify_role, should_update_based_on_role, str_eq, RoleTier};

#[test]
fn roles_classify_into_their_tiers() {
    assert_eq!(classify_role("AXImage"), RoleTier::Terminal);
    assert_eq!(classify_role("AXCheckBox"), RoleTier::Terminal);
    assert_eq!(classify_role("AXRadioButton"), RoleTier::Terminal);
    assert_eq!(classify_role("AXStaticText"), RoleTier::Interactive);
    assert_eq!(classify_role("AXHeading"), RoleTier::Interactive);
    assert_eq!(classify_role("AXButton"), RoleTier::Interactive);
    assert_eq!(classify_role("AXLink"), RoleTier::Container);
    assert_eq!(classify_role("AXGroup"), RoleTier::Container);
    assert_eq!(classify_role("AXWebArea"), RoleTier::Container);
    assert_eq!(classify_role("AXScrollArea"), RoleTier::Container);
    assert_eq!(classify_role("AXWindow"), RoleTier::Other);
    assert_eq!(classify_role(""), RoleTier::Other);
    assert_eq!(classify_role("aximage"), RoleTier::Other);
}

#[test]
fn tie_break_accepts_when_no_current_best() {
    assert!(should_update_based_on_role(None, "AXGroup"));
    assert!(should_update_based_on_role(None, ""));
}

#[test]
fn terminal_displaces_everything() {
    assert!(should_update_based_on_role(Some("AXGroup"), "AXImage"));
    assert!(should_update_based_on_role(Some("AXButton"), "AXCheckBox"));
    assert!(should_update_based_on_role(Some("AXImage"), "AXRadioButton"));
    assert!(should_update_based_on_role(Some("Unknown"), "AXImage"));
}

#[test]
fn interactive_displaces_only_containers() {
    assert!(should_update_based_on_role(Some("AXScrollArea"), "AXButton"));
    assert!(should_update_based_on_role(Some("AXLink"), "AXStaticText"));
    assert!(!should_update_based_on_role(Some("AXButton"), "AXHeading"));
    assert!(!should_update_based_on_role(Some("AXImage"), "AXButton"));
    assert!(!should_update_based_on_role(Some("Unknown"), "AXButton"));
}

#[test]
fn containers_and_unranked_never_displace() {
    assert!(!should_update_based_on_role(Some("AXGroup"), "AXLink"));
    assert!(!should_update_based_on_role(Some("AXButton"), "AXGroup"));
    assert!(!should_update_based_on_role(Some("AXImage"), "AXWebArea"));
    assert!(!should_update_based_on_role(Some("AXGroup"), "Unknown"));
    assert!(!should_update_based_on_role(Some(""), ""));
}

#[test]
fn string_equality_is_exact() {
    assert!(str_eq("AXImage", "AXImage"));
    assert!(!str_eq("AXImage", "AXImag"));
    assert!(!str_eq("AXImage", "AXImages"));
    assert!(!str_eq("AXImage", "aximage"));
    assert!(str_eq("", ""));
}

#[test]
fn geometry_edges_and_area() {
    let r = Rect { x: 3, y: 4, width: 10, height: 20 };
    assert!(r.contains_point(3, 4));
    assert!(r.contains_point(12, 23));
    assert!(!r.contains_point(13, 10));
    assert!(!r.contains_point(10, 24));
    assert!(!r.contains_point(2, 10));
    assert_eq!(r.area(), 200);
    let empty = Rect { x: 0, y: 0, width: 0, height: 5 };
    assert!(!empty.contains_point(0, 1));
    assert_eq!(empty.area(), 0);
}
