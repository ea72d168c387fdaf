use snip_core::capture::{
    contains_substr, decimal_string, is_window_role, plan_capture, region_argument, CaptureTarget,
};

#[test]
fn window_capture_for_window_role_with_id() {
    let target = plan_capture(10, 20, 300, 400, 5, "AXWindow");
    assert_eq!(target, CaptureTarget::Window { id: 5 });
}

#[test]
fn region_capture_when_no_window_was_resolved() {
    // A window-like role but no owning window: fall back to the rectangle.
    let target = plan_capture(10, 20, 300, 400, 0, "AXWindow");
    assert_eq!(target, CaptureTarget::Region { x: 10, y: 20, width: 300, height: 400 });
}

#[test]
fn region_capture_for_ordinary_roles() {
    let target = plan_capture(1, 2, 3, 4, 99, "AXButton");
    assert_eq!(target, CaptureTarget::Region { x: 1, y: 2, width: 3, height: 4 });
}

#[test]
fn window_role_is_a_substring_match() {
    assert!(is_window_role("AXWindow"));
    assert!(is_window_role("AXStandardWindow"));
    assert!(is_window_role("WindowLike"));
    assert!(!is_window_role("AXButton"));
    assert!(!is_window_role("Unknown"));
    assert!(!is_window_role("window"));
}

#[test]
fn decimal_rendering_is_exact() {
    assert_eq!(decimal_string(0), "0");
    assert_eq!(decimal_string(7), "7");
    assert_eq!(decimal_string(10), "10");
    assert_eq!(decimal_string(305), "305");
    assert_eq!(decimal_string(-1), "-1");
    assert_eq!(decimal_string(-9876), "-9876");
    assert_eq!(decimal_string(1_000_000_000), "1000000000");
    assert_eq!(decimal_string(-1_000_000_000), "-1000000000");
    assert_eq!(decimal_string(i64::MIN), "-9223372036854775808");
    assert_eq!(decimal_string(i64::MAX), "9223372036854775807");
}

#[test]
fn region_argument_lists_the_rectangle() {
    assert_eq!(region_argument(10, 20, 300, 400), "10,20,300,400");
    assert_eq!(region_argument(-5, 0, 10, 10), "-5,0,10,10");
}

#[test]
fn substring_search_finds_and_rejects() {
    assert!(contains_substr("abcdef", "cde"));
    assert!(contains_substr("abcdef", "abcdef"));
    assert!(contains_substr("abcdef", ""));
    assert!(!contains_substr("abcdef", "abcdefg"));
    assert!(!contains_substr("abcdef", "ce"));
    assert!(!contains_substr("", "a"));
}
