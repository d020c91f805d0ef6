use enum_matcher::dispatch::{MatcherState, UpdateDecision};

#[test]
fn event_before_any_lifecycle_pass_is_dropped() {
    let m = MatcherState::new(2).with_child(0).with_child(1);
    // no lifecycle pass yet: the recorded discriminant is unset
    assert_eq!(m.route_event(0), None);
    assert_eq!(m.route_event(1), None);
}

#[test]
fn event_with_stale_discriminant_is_dropped() {
    let mut m = MatcherState::new(2).with_child(0).with_child(1);
    let _ = m.on_lifecycle(0, true);
    // the value has moved to variant 1, but no lifecycle pass saw it yet
    assert_eq!(m.route_event(1), None);
    assert_eq!(m.route_event(0), Some(0));
}

#[test]
fn event_reaches_child_after_matching_lifecycle_pass() {
    let mut m = MatcherState::new(2).with_child(1);
    let _ = m.on_lifecycle(1, false);
    assert_eq!(m.route_event(1), Some(1));
    // the observed variant has no child installed
    let _ = m.on_lifecycle(0, false);
    assert_eq!(m.route_event(0), None);
}

#[test]
fn added_to_tree_warns_once_per_unfilled_variant() {
    let mut m = MatcherState::new(3).with_child(1);
    let (warned, target) = m.on_lifecycle(1, true);
    assert_eq!(warned, vec![0, 2]);
    assert_eq!(target, Some(1));
}

#[test]
fn default_child_suppresses_warnings() {
    let mut m = MatcherState::new(3).with_child(1).with_default();
    let (warned, target) = m.on_lifecycle(0, true);
    assert_eq!(warned, Vec::<usize>::new());
    // the default child suppresses the warning but receives no calls
    assert_eq!(target, None);
}

#[test]
fn ordinary_lifecycle_pass_does_not_warn() {
    let mut m = MatcherState::new(3);
    let (warned, _) = m.on_lifecycle(0, false);
    assert_eq!(warned, Vec::<usize>::new());
}

#[test]
fn update_same_variant_forwards_to_its_child() {
    let m = MatcherState::new(2).with_child(0);
    assert!(matches!(m.route_update(0, 0), UpdateDecision::Forward(0)));
    assert!(matches!(m.route_update(1, 1), UpdateDecision::Skip));
}

#[test]
fn update_across_variants_reports_changed_children() {
    let m = MatcherState::new(2).with_child(0).with_child(1);
    assert!(matches!(
        m.route_update(0, 1),
        UpdateDecision::ChildrenChanged
    ));
    assert!(matches!(
        m.route_update(1, 0),
        UpdateDecision::ChildrenChanged
    ));
}

#[test]
fn layout_and_paint_reach_only_installed_children() {
    let m = MatcherState::new(2).with_child(0);
    assert_eq!(m.route_layout(0), Some(0));
    assert_eq!(m.route_layout(1), None);
    assert_eq!(m.route_paint(0), Some(0));
    assert_eq!(m.route_paint(1), None);
}
