use quickpay::error::{FlowError, ProtocolViolation, ValidationError};
use quickpay::inputs::{choice_labels, rule_verdict, select_input, text_input, validate_text};
use quickpay::model::{ChoiceOption, RegexRule};

fn digits_only() -> Vec<RegexRule> {
    vec![RegexRule { regex: "^[0-9]+$".to_string(), message: "digits only".to_string() }]
}

fn options() -> Vec<ChoiceOption> {
    vec![
        ChoiceOption { id: "opt-a".to_string(), display_text: "First".to_string() },
        ChoiceOption { id: "opt-b".to_string(), display_text: "Second".to_string() },
    ]
}

#[test]
fn text_shorter_than_minimum_is_rejected() {
    let res = text_input("ab".to_string(), 3, 5, &vec![], false);
    assert_eq!(res, Err(ValidationError::Length { min_length: 3, max_length: 5, length: 2 }));
}

#[test]
fn text_within_bounds_is_accepted() {
    assert_eq!(text_input("abcd".to_string(), 3, 5, &vec![], false), Ok("abcd".to_string()));
    assert_eq!(text_input("abc".to_string(), 3, 5, &vec![], false), Ok("abc".to_string()));
    assert_eq!(text_input("abcde".to_string(), 3, 5, &vec![], false), Ok("abcde".to_string()));
}

#[test]
fn text_longer_than_maximum_is_rejected() {
    let res = text_input("abcdef".to_string(), 3, 5, &vec![], false);
    assert_eq!(res, Err(ValidationError::Length { min_length: 3, max_length: 5, length: 6 }));
}

#[test]
fn length_is_counted_in_bytes() {
    let res = validate_text("\u{e9}\u{e9}", 0, 3, &vec![]);
    assert_eq!(res, Err(ValidationError::Length { min_length: 0, max_length: 3, length: 4 }));
    assert_eq!(validate_text("\u{e9}", 2, 2, &vec![]), Ok(()));
}

#[test]
fn negative_bounds_are_compared_as_numbers() {
    assert_eq!(validate_text("", -1, 0, &vec![]), Ok(()));
    assert_eq!(
        validate_text("", -5, -1, &vec![]),
        Err(ValidationError::Length { min_length: -5, max_length: -1, length: 0 })
    );
}

#[test]
fn text_failing_a_pattern_is_rejected_with_its_message() {
    let res = text_input("12a".to_string(), 0, 10, &digits_only(), false);
    assert_eq!(res, Err(ValidationError::Pattern { message: "digits only".to_string() }));
}

#[test]
fn text_matching_the_pattern_is_accepted() {
    assert_eq!(text_input("123".to_string(), 0, 10, &digits_only(), false), Ok("123".to_string()));
}

#[test]
fn first_failing_pattern_is_reported() {
    let rules = vec![
        RegexRule { regex: "^[a-z0-9]+$".to_string(), message: "lower case".to_string() },
        RegexRule { regex: "^[0-9]+$".to_string(), message: "digits only".to_string() },
        RegexRule { regex: "^9".to_string(), message: "starts with nine".to_string() },
    ];
    assert_eq!(
        validate_text("12a", 0, 10, &rules),
        Err(ValidationError::Pattern { message: "digits only".to_string() })
    );
    assert_eq!(
        validate_text("123", 0, 10, &rules),
        Err(ValidationError::Pattern { message: "starts with nine".to_string() })
    );
    assert_eq!(validate_text("923", 0, 10, &rules), Ok(()));
}

#[test]
fn length_is_judged_before_patterns() {
    assert_eq!(
        validate_text("12a", 5, 10, &digits_only()),
        Err(ValidationError::Length { min_length: 5, max_length: 10, length: 3 })
    );
}

#[test]
fn pattern_that_does_not_compile_is_reported() {
    let rules = vec![RegexRule { regex: "foo(bar".to_string(), message: "never".to_string() }];
    assert_eq!(validate_text("foobar", 0, 10, &rules), Err(ValidationError::BadPattern));
}

#[test]
fn pattern_is_searched_in_the_text_not_compared_with_it() {
    let rules = vec![RegexRule { regex: "b+".to_string(), message: "needs b".to_string() }];
    assert_eq!(validate_text("abba", 0, 10, &rules), Ok(()));
    assert_eq!(validate_text("b+", 0, 10, &rules), Ok(()));
    assert_eq!(
        validate_text("acca", 0, 10, &rules),
        Err(ValidationError::Pattern { message: "needs b".to_string() })
    );
}

#[test]
fn sensitive_text_is_not_validated() {
    assert_eq!(text_input("ab".to_string(), 3, 5, &digits_only(), true), Ok("ab".to_string()));
    assert_eq!(text_input(String::new(), 3, 5, &digits_only(), true), Ok(String::new()));
}

#[test]
fn rule_verdict_by_outcome() {
    let message = "digits only".to_string();
    assert_eq!(rule_verdict(Some(true), &message), Ok(()));
    assert_eq!(
        rule_verdict(Some(false), &message),
        Err(ValidationError::Pattern { message: "digits only".to_string() })
    );
    assert_eq!(rule_verdict(None, &message), Err(ValidationError::BadPattern));
}

#[test]
fn selection_gives_the_id_not_the_label() {
    assert_eq!(select_input(&options(), 0), Ok("opt-a".to_string()));
    assert_eq!(select_input(&options(), 1), Ok("opt-b".to_string()));
}

#[test]
fn selection_out_of_range_is_a_protocol_error() {
    assert_eq!(
        select_input(&options(), 2),
        Err(FlowError::ProtocolError(ProtocolViolation::NoSuchEntry))
    );
    assert_eq!(
        select_input(&vec![], 0),
        Err(FlowError::ProtocolError(ProtocolViolation::NoSuchEntry))
    );
}

#[test]
fn labels_follow_the_options() {
    assert_eq!(choice_labels(&options()), vec!["First".to_string(), "Second".to_string()]);
    assert_eq!(choice_labels(&vec![]), Vec::<String>::new());
}

#[test]
fn messages_of_validation_errors() {
    assert_eq!(
        ValidationError::Length { min_length: 3, max_length: 5, length: 2 }.message(),
        "Should have length between 3 and 5, was 2"
    );
    assert_eq!(
        ValidationError::Length { min_length: -12, max_length: 2147483647, length: 1050 }.message(),
        "Should have length between -12 and 2147483647, was 1050"
    );
    assert_eq!(
        ValidationError::Length { min_length: i32::MIN, max_length: 0, length: 10 }.message(),
        "Should have length between -2147483648 and 0, was 10"
    );
    assert_eq!(
        ValidationError::Pattern { message: "digits only".to_string() }.message(),
        "digits only"
    );
    assert_eq!(ValidationError::BadPattern.message(), "could not build validation regex");
}
