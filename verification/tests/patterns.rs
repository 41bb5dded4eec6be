use invoice_intake::error::{ConfigError, PatternFault};
use invoice_intake::extract::{Extractor, PatternSet};
use invoice_intake::pattern::{select_groups, FieldPattern};

fn pattern(name: &str, expression: &str, groups: Vec<usize>) -> FieldPattern {
    FieldPattern { name: name.to_string(), expression: expression.to_string(), groups }
}

#[test]
fn first_match_returns_the_declared_groups_in_order() {
    let compiled = pattern("pair", r"(\w+)=(\d+)", vec![2, 1]).compile(2).unwrap();
    assert_eq!(
        compiled.first_match("x=1 y=2"),
        Some(vec!["1".to_string(), "x".to_string()])
    );
}

#[test]
fn first_match_is_none_without_a_match() {
    let compiled = pattern("pair", r"(\w+)=(\d+)", vec![1, 2]).compile(2).unwrap();
    assert_eq!(compiled.first_match("no assignment here"), None);
}

#[test]
fn first_match_is_none_when_a_declared_group_took_no_part() {
    let compiled = pattern("either", r"id:(?:(\d+)|([a-z]+))", vec![1, 2]).compile(2).unwrap();
    assert_eq!(compiled.first_match("id:42"), None);
}

#[test]
fn first_match_is_none_for_a_group_the_expression_lacks() {
    let compiled = pattern("short", r"id:(\d+)", vec![3]).compile(1).unwrap();
    assert_eq!(compiled.first_match("id:42"), None);
}

#[test]
fn group_zero_is_the_whole_match() {
    let compiled = pattern("whole", r"id:(\d+)", vec![0]).compile(1).unwrap();
    assert_eq!(compiled.first_match("see id:42."), Some(vec!["id:42".to_string()]));
}

#[test]
fn select_groups_on_hand_built_captures() {
    let captures = Some(vec![Some("a-b".to_string()), Some("a".to_string()), None]);
    assert_eq!(select_groups(&captures, &vec![1]), Some(vec!["a".to_string()]));
    assert_eq!(select_groups(&captures, &vec![1, 0]), Some(vec!["a".to_string(), "a-b".to_string()]));
    assert_eq!(select_groups(&captures, &vec![2]), None);
    assert_eq!(select_groups(&captures, &vec![1, 7]), None);
    assert_eq!(select_groups(&captures, &vec![]), Some(vec![]));
    assert_eq!(select_groups(&None, &vec![]), None);
    assert_eq!(select_groups(&None, &vec![0]), None);
}

#[test]
fn rejected_expression_is_a_malformed_pattern() {
    let error = pattern("broken", r"foo(bar", vec![1]).compile(1).unwrap_err();
    match error {
        ConfigError::MalformedPattern { field, fault: PatternFault::Rejected { detail } } => {
            assert_eq!(field, "broken");
            assert!(!detail.is_empty());
        }
        other => panic!("unexpected error: {:?}", other),
    }
}

#[test]
fn oversized_expression_is_a_malformed_pattern() {
    let error = pattern("huge", r"\w{1000}", vec![0]).compile(1).unwrap_err();
    assert!(matches!(
        error,
        ConfigError::MalformedPattern { fault: PatternFault::Rejected { .. }, .. }
    ));
}

#[test]
fn wrong_group_count_is_a_malformed_pattern() {
    let error = pattern("period", r"(\d+)-(\d+)", vec![1]).compile(2).unwrap_err();
    assert_eq!(
        error,
        ConfigError::MalformedPattern {
            field: "period".to_string(),
            fault: PatternFault::GroupCount { expected: 2, declared: 1 },
        }
    );
}

#[test]
fn group_count_is_checked_before_the_expression() {
    let error = pattern("both", r"foo(bar", vec![]).compile(1).unwrap_err();
    assert_eq!(
        error,
        ConfigError::MalformedPattern {
            field: "both".to_string(),
            fault: PatternFault::GroupCount { expected: 1, declared: 0 },
        }
    );
}

#[test]
fn extractor_reports_the_first_pattern_at_fault() {
    let mut set = PatternSet::standard();
    set.period.expression = "(".to_string();
    set.due_date.groups = vec![1, 2];
    match Extractor::compile(&set).unwrap_err() {
        ConfigError::MalformedPattern { field, fault } => {
            assert_eq!(field, "period");
            assert!(matches!(fault, PatternFault::Rejected { .. }));
        }
        other => panic!("unexpected error: {:?}", other),
    }
}

#[test]
fn extractor_checks_every_pattern() {
    let mut set = PatternSet::standard();
    set.due_date.groups = vec![1, 2];
    assert_eq!(
        Extractor::compile(&set).unwrap_err(),
        ConfigError::MalformedPattern {
            field: "date due".to_string(),
            fault: PatternFault::GroupCount { expected: 1, declared: 2 },
        }
    );
    let mut set = PatternSet::standard();
    set.invoice_number.expression = r"[".to_string();
    assert!(Extractor::compile(&set).is_err());
    assert!(Extractor::compile(&PatternSet::standard()).is_ok());
}

#[test]
fn extractor_follows_the_declared_set() {
    let mut set = PatternSet::standard();
    set.invoice_number = pattern("invoice number", r"No\. (\d+)", vec![1]);
    let record = Extractor::compile(&set).unwrap().extract("No. 31 Πληρωτέο μέχρι 15/02/2024");
    assert_eq!(record.invoice_number, Some("31".to_string()));
    assert_eq!(record.due_date, Some("15/02/2024".to_string()));
}
