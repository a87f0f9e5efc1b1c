use scrollable_state::policy::ScrollPolicy;
use scrollable_state::store::{
    property_name, PropertyValue, ScrollableState, HADJUSTMENT_ID, HSCROLL_POLICY_ID,
    VADJUSTMENT_ID, VSCROLL_POLICY_ID,
};

#[test]
fn fresh_state_has_defaults() {
    let s: ScrollableState<u64> = ScrollableState::new();
    assert_eq!(s.hadjustment, None);
    assert_eq!(s.vadjustment, None);
    assert_eq!(s.hscroll_policy, ScrollPolicy::Minimum);
    assert_eq!(s.vscroll_policy, ScrollPolicy::Minimum);
}

#[test]
fn adjustment_write_reads_back() {
    let mut s: ScrollableState<u64> = ScrollableState::new();
    s.set_property(HADJUSTMENT_ID, PropertyValue::Adjustment(Some(7)));
    assert_eq!(
        s.get_property(HADJUSTMENT_ID),
        Ok(PropertyValue::Adjustment(Some(7)))
    );
    assert_eq!(
        s.get_property(VADJUSTMENT_ID),
        Ok(PropertyValue::Adjustment(None))
    );
}

#[test]
fn adjustment_handle_is_cloned_back() {
    let mut s: ScrollableState<String> = ScrollableState::new();
    let handle = String::from("vertical-adjustment");
    s.set_property(VADJUSTMENT_ID, PropertyValue::Adjustment(Some(handle.clone())));
    assert_eq!(
        s.get_property(VADJUSTMENT_ID),
        Ok(PropertyValue::Adjustment(Some(handle)))
    );
}

#[test]
fn policy_writes_read_back() {
    let mut s: ScrollableState<u64> = ScrollableState::new();
    s.set_property(HSCROLL_POLICY_ID, PropertyValue::Policy(ScrollPolicy::Natural));
    assert_eq!(
        s.get_property(HSCROLL_POLICY_ID),
        Ok(PropertyValue::Policy(ScrollPolicy::Natural))
    );
    assert_eq!(
        s.get_property(VSCROLL_POLICY_ID),
        Ok(PropertyValue::Policy(ScrollPolicy::Minimum))
    );
    s.set_property(VSCROLL_POLICY_ID, PropertyValue::Policy(ScrollPolicy::Natural));
    assert_eq!(
        s.get_property(VSCROLL_POLICY_ID),
        Ok(PropertyValue::Policy(ScrollPolicy::Natural))
    );
}

#[test]
fn a_property_holds_the_last_value_written() {
    let mut s: ScrollableState<u64> = ScrollableState::new();
    s.set_property(HADJUSTMENT_ID, PropertyValue::Adjustment(Some(1)));
    s.set_property(HADJUSTMENT_ID, PropertyValue::Adjustment(Some(2)));
    assert_eq!(
        s.get_property(HADJUSTMENT_ID),
        Ok(PropertyValue::Adjustment(Some(2)))
    );
    s.set_property(HADJUSTMENT_ID, PropertyValue::Adjustment(None));
    assert_eq!(
        s.get_property(HADJUSTMENT_ID),
        Ok(PropertyValue::Adjustment(None))
    );
}

#[test]
fn a_write_leaves_the_other_properties_alone() {
    let mut s: ScrollableState<u64> = ScrollableState::new();
    s.set_property(HADJUSTMENT_ID, PropertyValue::Adjustment(Some(3)));
    s.set_property(VADJUSTMENT_ID, PropertyValue::Adjustment(Some(4)));
    s.set_property(HSCROLL_POLICY_ID, PropertyValue::Policy(ScrollPolicy::Natural));
    assert_eq!(s.hadjustment, Some(3));
    assert_eq!(s.vadjustment, Some(4));
    assert_eq!(s.hscroll_policy, ScrollPolicy::Natural);
    assert_eq!(s.vscroll_policy, ScrollPolicy::Minimum);
}

#[test]
fn the_registration_table_binds_the_four_ids() {
    assert_eq!(property_name(HADJUSTMENT_ID), Some("hadjustment"));
    assert_eq!(property_name(VADJUSTMENT_ID), Some("vadjustment"));
    assert_eq!(property_name(HSCROLL_POLICY_ID), Some("hscroll-policy"));
    assert_eq!(property_name(VSCROLL_POLICY_ID), Some("vscroll-policy"));
}

#[test]
fn the_registration_table_binds_no_other_id() {
    assert_eq!(property_name(0), None);
    assert_eq!(property_name(5), None);
    assert_eq!(property_name(usize::MAX), None);
}
