use etcd::conditions::ComparisonConditions;

#[test]
fn no_condition_is_empty() {
    let conditions = ComparisonConditions { modified_index: None, value: None };
    assert!(conditions.is_empty());
}

#[test]
fn an_index_is_a_condition() {
    let conditions = ComparisonConditions { modified_index: Some(7), value: None };
    assert!(!conditions.is_empty());
}

#[test]
fn a_value_is_a_condition() {
    let conditions = ComparisonConditions { modified_index: None, value: Some("on") };
    assert!(!conditions.is_empty());
}

#[test]
fn both_conditions_are_not_empty() {
    let conditions = ComparisonConditions { modified_index: Some(0), value: Some("") };
    assert!(!conditions.is_empty());
}
