use munic_simulator::custom_fields::{plan_for_nanos, rule_fault, FieldPlan, RuleFault};
use munic_simulator::custom_fields::{rule_of, FieldType};
use munic_simulator::custom_fields::{
    field_values, parse_bool, FieldRule, FieldValue, IntRule, StringRule,
};

fn text(v: &FieldValue) -> String {
    match v {
        FieldValue::Base64(t) => t.clone(),
        FieldValue::Null => "null".to_string(),
    }
}

#[test]
fn booleans_are_read_strictly() {
    assert_eq!(parse_bool("true"), Some(true));
    assert_eq!(parse_bool("false"), Some(false));
    assert_eq!(parse_bool("True"), None);
    assert_eq!(parse_bool(""), None);
}

#[test]
fn bool_rule_writes_its_value() {
    let rule = FieldRule { bool_rule: Some(Some("true".to_string())), int_rule: None, string_rule: None };
    let mut first = true;
    let mut last = 0;
    let values = field_values(&rule, &mut first, &mut last);
    assert_eq!(values.len(), 1);
    assert_eq!(text(&values[0]), "AQ==");
    assert!(first);
}

#[test]
fn bool_rule_without_a_boolean_draws_one() {
    let rule = FieldRule { bool_rule: Some(Some("maybe".to_string())), int_rule: None, string_rule: None };
    let mut first = true;
    let mut last = 0;
    let values = field_values(&rule, &mut first, &mut last);
    let t = text(&values[0]);
    assert!(t == "AQ==" || t == "AA==");
}

#[test]
fn int_rule_walks() {
    let rule = FieldRule {
        bool_rule: None,
        int_rule: Some(IntRule { min: 3, max: 3, deviation: 1 }),
        string_rule: None,
    };
    let mut first = true;
    let mut last = 0;
    let values = field_values(&rule, &mut first, &mut last);
    assert_eq!(values.len(), 1);
    assert_eq!(text(&values[0]), "AAAAAw==");
    assert!(!first);
    assert_eq!(last, 3);
}

#[test]
fn string_rules_write_texts_or_null() {
    let rule = FieldRule {
        bool_rule: None,
        int_rule: None,
        string_rule: Some(StringRule::Choice(vec![Some("ab".to_string())])),
    };
    let mut first = true;
    let mut last = 0;
    let values = field_values(&rule, &mut first, &mut last);
    assert_eq!(text(&values[0]), "YWI=");
    let rule = FieldRule { bool_rule: None, int_rule: None, string_rule: Some(StringRule::Choice(vec![None])) };
    let values = field_values(&rule, &mut first, &mut last);
    assert!(matches!(values[0], FieldValue::Null));
    let rule = FieldRule { bool_rule: None, int_rule: None, string_rule: Some(StringRule::Random(3)) };
    let values = field_values(&rule, &mut first, &mut last);
    assert_eq!(text(&values[0]).len(), 4);
    let rule = FieldRule { bool_rule: None, int_rule: None, string_rule: Some(StringRule::Unspecified) };
    assert!(field_values(&rule, &mut first, &mut last).is_empty());
}

#[test]
fn every_rule_of_a_field_writes_in_order() {
    let rule = FieldRule {
        bool_rule: Some(Some("false".to_string())),
        int_rule: Some(IntRule { min: 1, max: 1, deviation: 0 }),
        string_rule: Some(StringRule::Choice(vec![Some("a".to_string())])),
    };
    let mut first = true;
    let mut last = 0;
    let values = field_values(&rule, &mut first, &mut last);
    assert_eq!(values.len(), 3);
    assert_eq!(text(&values[0]), "AA==");
    assert_eq!(text(&values[1]), "AAAAAQ==");
    assert_eq!(text(&values[2]), "YQ==");
}

#[test]
fn rules_come_from_the_type_object() {
    let t = FieldType {
        has_bool: true,
        bool_text: Some("true".to_string()),
        has_int: true,
        int_min: Some(1),
        int_max: Some(5),
        int_deviation: Some(2),
        has_string: true,
        random_size: None,
        choices: Some(vec![Some("x".to_string())]),
    };
    let rule = rule_of(t);
    assert_eq!(rule.bool_rule, Some(Some("true".to_string())));
    let int_rule = rule.int_rule.unwrap();
    assert_eq!((int_rule.min, int_rule.max, int_rule.deviation), (1, 5, 2));
    assert!(matches!(rule.string_rule, Some(StringRule::Choice(_))));
    let t = FieldType {
        has_bool: false,
        bool_text: None,
        has_int: false,
        int_min: None,
        int_max: None,
        int_deviation: None,
        has_string: true,
        random_size: Some(4),
        choices: Some(vec![]),
    };
    let rule = rule_of(t);
    assert!(rule.bool_rule.is_none());
    assert!(rule.int_rule.is_none());
    assert!(matches!(rule.string_rule, Some(StringRule::Random(4))));
}

fn int_rule(min: i64, max: i64, deviation: i64) -> FieldRule {
    FieldRule {
        bool_rule: None,
        int_rule: Some(IntRule { min, max, deviation }),
        string_rule: None,
    }
}

#[test]
fn rule_faults_are_found_in_order() {
    let bad_bool = FieldRule { bool_rule: Some(None), int_rule: None, string_rule: None };
    assert!(matches!(rule_fault(&bad_bool, true, 0), Some(RuleFault::BoolNotText)));
    assert!(matches!(rule_fault(&int_rule(5, 1, 1), true, 0), Some(RuleFault::EmptyRange)));
    assert!(rule_fault(&int_rule(1, 5, -1), true, 0).is_none());
    assert!(matches!(rule_fault(&int_rule(1, 5, -1), false, 3), Some(RuleFault::NegativeDeviation)));
    assert!(matches!(
        rule_fault(&int_rule(0, 100, 10), false, i16::MAX),
        Some(RuleFault::WalkOverflow)
    ));
    assert!(rule_fault(&int_rule(0, 100, 10), false, 50).is_none());
    let empty = FieldRule {
        bool_rule: None,
        int_rule: None,
        string_rule: Some(StringRule::Choice(vec![])),
    };
    assert!(matches!(rule_fault(&empty, true, 0), Some(RuleFault::EmptyChoice)));
    let both = FieldRule {
        bool_rule: Some(None),
        int_rule: Some(IntRule { min: 5, max: 1, deviation: 1 }),
        string_rule: None,
    };
    assert!(matches!(rule_fault(&both, true, 0), Some(RuleFault::BoolNotText)));
}

#[test]
fn plan_follows_any_parsed_period() {
    let long: u128 = 123_456_789_012;
    assert!(matches!(plan_for_nanos(Some(long), long - 1), FieldPlan::Wait));
    assert!(matches!(plan_for_nanos(Some(long), long), FieldPlan::Update));
    assert!(matches!(plan_for_nanos(None, 5), FieldPlan::BadPeriod));
    assert!(matches!(plan_for_nanos(Some(0), 0), FieldPlan::Update));
}
