use home_projects::error::HttpError;
use home_projects::extract::{body_read_failure, decode_failure, ValidatedJson};
use home_projects::validation::{validation_errors, FieldError, ValidationErrors, ValidationErrorsKind};

fn field(code: &str, message: Option<&str>) -> FieldError {
    FieldError { code: code.to_string(), message: message.map(|m| m.to_string()) }
}

fn report(entries: Vec<(&str, ValidationErrorsKind)>) -> ValidationErrors {
    ValidationErrors { entries: entries.into_iter().map(|(k, v)| (k.to_string(), v)).collect() }
}

fn strings(v: &[&str]) -> Vec<String> {
    v.iter().map(|s| s.to_string()).collect()
}

#[test]
fn field_errors_become_items_at_the_field() {
    let r = report(vec![(
        "title",
        ValidationErrorsKind::Field(vec![field("length", Some("Can not be empty")), field("custom", None)]),
    )]);
    let items = validation_errors(strings(&["body"]), r);
    assert_eq!(items.len(), 2);
    assert_eq!(items[0].loc, strings(&["body", "title"]));
    assert_eq!(items[0].msg, "Can not be empty");
    assert_eq!(items[0].ty, "value_error");
    assert_eq!(items[1].loc, strings(&["body", "title"]));
    assert_eq!(items[1].msg, "Validation error");
    assert_eq!(items[1].ty, "value_error");
}

#[test]
fn nested_structs_and_lists_extend_the_location() {
    let inner = report(vec![("name", ValidationErrorsKind::Field(vec![field("required", None)]))]);
    let element3 = report(vec![("email", ValidationErrorsKind::Field(vec![field("email", Some("bad email"))]))]);
    let element12 = report(vec![("age", ValidationErrorsKind::Field(vec![field("range", None)]))]);
    let r = report(vec![
        ("owner", ValidationErrorsKind::Struct(Box::new(inner))),
        ("friends", ValidationErrorsKind::List(vec![(3, element3), (12, element12)])),
    ]);
    let items = validation_errors(strings(&["body"]), r);
    assert_eq!(items.len(), 3);
    assert_eq!(items[0].loc, strings(&["body", "owner", "name"]));
    assert_eq!(items[1].loc, strings(&["body", "friends", "[3]", "email"]));
    assert_eq!(items[1].msg, "bad email");
    assert_eq!(items[2].loc, strings(&["body", "friends", "[12]", "age"]));
    assert_eq!(items[2].msg, "Validation error");
}

#[test]
fn empty_report_gives_no_items() {
    assert!(validation_errors(strings(&["body"]), report(vec![])).is_empty());
    let r = report(vec![("tags", ValidationErrorsKind::List(vec![])), ("x", ValidationErrorsKind::Field(vec![]))]);
    assert!(validation_errors(vec![], r).is_empty());
}

#[test]
fn every_item_lies_under_the_starting_path() {
    let deep = report(vec![("c", ValidationErrorsKind::Field(vec![field("c", None)]))]);
    let mid = report(vec![("b", ValidationErrorsKind::Struct(Box::new(deep)))]);
    let r = report(vec![
        ("a", ValidationErrorsKind::List(vec![(0, mid)])),
        ("d", ValidationErrorsKind::Field(vec![field("d", None), field("e", None)])),
    ]);
    let start = strings(&["body", "payload"]);
    let items = validation_errors(start.clone(), r);
    assert_eq!(items.len(), 3);
    for item in &items {
        assert!(item.loc.len() > start.len());
        assert_eq!(&item.loc[..start.len()], &start[..]);
        assert_eq!(item.ty, "value_error");
    }
    assert_eq!(items[0].loc, strings(&["body", "payload", "a", "[0]", "b", "c"]));
}

#[test]
fn unreadable_body_is_an_internal_error() {
    match body_read_failure() {
        HttpError::InternalServerError { message: None, detail: Some(d) } => {
            assert_eq!(d, "Failed to read request body")
        }
        _ => panic!("unexpected error"),
    }
    assert_eq!(body_read_failure().status_code(), 500);
}

#[test]
fn undecodable_body_is_located_by_its_path() {
    let e = decode_failure("project.tasks[1].title", Some("invalid type".to_string()), "whole message".to_string());
    assert_eq!(e.status_code(), 422);
    match e {
        HttpError::UnprocessableEntity { errors } => {
            assert_eq!(errors.len(), 1);
            assert_eq!(errors[0].loc, strings(&["body", "project", "tasks[1]", "title"]));
            assert_eq!(errors[0].msg, "invalid type");
            assert_eq!(errors[0].ty, "value_error.jsondecode");
        }
        _ => panic!("unexpected error"),
    }
    match decode_failure(".", None, "expected value".to_string()) {
        HttpError::UnprocessableEntity { errors } => {
            assert_eq!(errors[0].loc, strings(&["body", "", ""]));
            assert_eq!(errors[0].msg, "expected value");
        }
        _ => panic!("unexpected error"),
    }
}

#[test]
fn clean_report_accepts_the_value() {
    let v = ValidatedJson::accept(41u32, Ok(())).ok().unwrap();
    assert_eq!(v.0, 41);
}

#[test]
fn failed_report_is_unprocessable() {
    let r = report(vec![("text", ValidationErrorsKind::Field(vec![field("length", Some("Can not be empty"))]))]);
    match ValidatedJson::accept("x", Err(r)) {
        Err(HttpError::UnprocessableEntity { errors }) => {
            assert_eq!(errors.len(), 1);
            assert_eq!(errors[0].loc, strings(&["body", "text"]));
            assert_eq!(errors[0].msg, "Can not be empty");
        }
        _ => panic!("expected an unprocessable entity"),
    }
}

#[test]
fn default_and_cloned_bodies() {
    let d: ValidatedJson<u32> = ValidatedJson::default();
    assert_eq!(d.0, 0);
    let v = ValidatedJson(vec![1, 2]);
    let w = v.clone();
    assert_eq!(v.0, w.0);
}
