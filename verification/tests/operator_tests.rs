use server::operator::{Operator, Request, RouteError, RouteOutcome, TestOperator};

#[test]
fn test_operator_is_named_test() {
    let op = TestOperator::new();
    assert_eq!(op.filename(), "test");
}

#[test]
fn resolve_greets_the_test_path_and_wants_the_file() {
    let op = TestOperator::new();
    let req = Request { method: Some(String::from("GET")), path: Some(String::from("/test")) };
    let (outcome, wants_file) = op.resolve(&req);
    assert!(matches!(outcome, RouteOutcome::Matched(s) if s == "Hello"));
    assert!(wants_file);
}

#[test]
fn resolve_greets_other_paths_without_the_file() {
    let op = TestOperator::new();
    let req = Request { method: Some(String::from("GET")), path: Some(String::from("/else")) };
    let (outcome, wants_file) = op.resolve(&req);
    assert!(matches!(outcome, RouteOutcome::Matched(s) if s == "Hello"));
    assert!(!wants_file);
}

#[test]
fn resolve_reports_a_missing_path() {
    let op = TestOperator::new();
    let req = Request { method: Some(String::from("GET")), path: None };
    let (outcome, wants_file) = op.resolve(&req);
    assert!(matches!(outcome, RouteOutcome::MissingParameter("path")));
    assert!(!wants_file);
}

#[test]
fn dispatch_answers_the_test_path() {
    let mut operator = Operator::new();
    let req = Request { method: Some(String::from("GET")), path: Some(String::from("/test")) };
    let (result, wants_file) = operator.dispatch(&req);
    assert!(matches!(result, Ok(s) if s == "Hello"));
    assert!(wants_file);
}

#[test]
fn dispatch_answers_an_unknown_path_without_the_file() {
    let mut operator = Operator::new();
    let req = Request { method: Some(String::from("GET")), path: Some(String::from("/")) };
    let (result, wants_file) = operator.dispatch(&req);
    assert!(matches!(result, Ok(s) if s == "Hello"));
    assert!(!wants_file);
}

#[test]
fn dispatch_fails_on_a_request_without_a_path() {
    let mut operator = Operator::new();
    let req = Request { method: None, path: None };
    let (result, wants_file) = operator.dispatch(&req);
    assert!(matches!(result, Err(RouteError::MissingParameter("path"))));
    assert!(!wants_file);
}
