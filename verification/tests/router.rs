use home_projects::entity::{ProjectModel, TaskModel, Timestamp, UserModel};
use home_projects::error::HttpError;
use home_projects::router::projects::{project_response, project_responses, GetProjectResponse, ProjectRequest};
use home_projects::router::users::{
    create_user_record, hash_password, hash_password_with_salt, new_user, verify_password, CreateUserRequest, CreateUserResponse,
    GetUsersResponse,
};
use home_projects::router::{creation_outcome, found_or_not_found, CREATED};
use home_projects::validation::ValidationErrorsKind;

fn at(secs: i64) -> Timestamp {
    Timestamp { secs, nanos: 0, offset_secs: 0 }
}

fn project(id: u128, title: &str) -> ProjectModel {
    ProjectModel::new(id, title.to_string(), "Project Description".to_string(), None, at(100))
}

fn task(id: u128, project_id: u128) -> TaskModel {
    TaskModel::new(id, "Task Title".to_string(), "Task Description".to_string(), Some(project_id), at(200))
}

#[test]
fn new_records_are_created_and_updated_at_once() {
    let p = project(1, "Project Title");
    assert_eq!(p.created_at, at(100));
    assert_eq!(p.updated_at, at(100));
    let t = task(2, 1);
    assert_eq!(t.created_at, t.updated_at);
}

#[test]
fn saving_moves_only_the_update_time() {
    let mut p = project(1, "Project Title");
    p.before_save(at(150));
    assert_eq!(p.created_at, at(100));
    assert_eq!(p.updated_at, at(150));
    assert_eq!(p.title, "Project Title");
    let mut t = task(2, 1);
    t.before_save(at(300));
    assert_eq!(t.created_at, at(200));
    assert_eq!(t.updated_at, at(300));
}

#[test]
fn project_with_and_without_task() {
    let r = GetProjectResponse::from_row(project(1, "P"), Some(task(2, 1)));
    assert_eq!(r.project.id, 1);
    assert_eq!(r.tasks.len(), 1);
    assert_eq!(r.tasks[0].id, 2);
    let r = GetProjectResponse::from_row(project(1, "P"), None);
    assert!(r.tasks.is_empty());
}

#[test]
fn missing_project_is_not_found() {
    match project_response(None) {
        Err(e) => assert_eq!(e.status_code(), 404),
        Ok(_) => panic!("expected not found"),
    }
    let r = project_response(Some((project(5, "Project Title"), None))).ok().unwrap();
    assert_eq!(r.project.id, 5);
    assert_eq!(r.project.text, "Project Description");
}

#[test]
fn listing_keeps_the_order_of_rows() {
    let rows = vec![(project(1, "a"), None), (project(2, "b"), Some(task(9, 2))), (project(3, "c"), None)];
    let r = project_responses(rows);
    assert_eq!(r.len(), 3);
    assert_eq!(r[0].project.id, 1);
    assert_eq!(r[1].project.id, 2);
    assert_eq!(r[1].tasks[0].id, 9);
    assert_eq!(r[2].project.title, "c");
    assert!(r[0].tasks.is_empty() && r[2].tasks.is_empty());
    assert!(project_responses(vec![]).is_empty());
}

#[test]
fn project_request_validation() {
    let ok = ProjectRequest { title: "test".to_string(), text: "test".to_string() };
    assert!(ok.validate().is_ok());
    let bad = ProjectRequest { title: String::new(), text: String::new() };
    let report = bad.validate().err().unwrap();
    assert_eq!(report.entries.len(), 2);
    let mut names: Vec<&str> = report.entries.iter().map(|e| e.0.as_str()).collect();
    names.sort();
    assert_eq!(names, vec!["text", "title"]);
    match &report.entries[0].1 {
        ValidationErrorsKind::Field(v) => {
            assert_eq!(v.len(), 1);
            assert_eq!(v[0].code, "length");
            assert_eq!(v[0].message.as_deref(), Some("Can not be empty"));
        }
        _ => panic!("expected field errors"),
    }
    let half = ProjectRequest { title: "t".to_string(), text: String::new() };
    let report = half.validate().err().unwrap();
    assert_eq!(report.entries.len(), 1);
    assert_eq!(report.entries[0].0, "text");
}

#[test]
fn project_request_makes_a_project() {
    let req = ProjectRequest { title: "test".to_string(), text: "body".to_string() };
    let p = req.into_project(42, at(7));
    assert_eq!(p.id, 42);
    assert_eq!(p.title, "test");
    assert_eq!(p.text, "body");
    assert_eq!(p.user_id, None);
    assert_eq!(p.created_at, at(7));
}

#[test]
fn creation_answers() {
    assert_eq!(creation_outcome(Ok(())).ok(), Some(CREATED));
    assert_eq!(CREATED, 201);
    match creation_outcome(Err("duplicate key".to_string())) {
        Err(HttpError::BadRequest { message: Some(m), detail: None }) => assert_eq!(m, "duplicate key"),
        _ => panic!("expected a bad request"),
    }
    assert_eq!(HttpError::bad_request(None, None).status_code(), 400);
    assert_eq!(HttpError::not_found(None, None).status_code(), 404);
    assert_eq!(HttpError::unprocessable_entity(vec![]).status_code(), 422);
    assert_eq!(HttpError::internal_server_errer(None, None).status_code(), 500);
}

#[test]
fn lookups() {
    assert_eq!(found_or_not_found(Some(3)).ok(), Some(3));
    match found_or_not_found::<u8>(None) {
        Err(HttpError::NotFound { message: None, detail: None }) => {}
        _ => panic!("expected not found"),
    }
}

#[test]
fn argon2_hash_is_a_phc_string_of_the_salt() {
    let salt = "c2FsdHNhbHRzYWx0";
    let h = hash_password_with_salt(&"hunter2".to_string(), salt).ok().unwrap();
    assert!(h.starts_with("$argon2id$v=19$m=4096,t=3,p=1$c2FsdHNhbHRzYWx0$"));
    let again = hash_password_with_salt(&"hunter2".to_string(), salt).ok().unwrap();
    assert_eq!(h, again);
    let other = hash_password_with_salt(&"hunter3".to_string(), salt).ok().unwrap();
    assert_ne!(h, other);
}

#[test]
fn argon2_refuses_a_short_salt() {
    match hash_password_with_salt(&"hunter2".to_string(), "ab") {
        Err(HttpError::InternalServerError { message: None, detail: Some(d) }) => {
            assert!(d.starts_with("failed to generate password hash: "))
        }
        _ => panic!("expected a hashing failure"),
    }
}

#[test]
fn hashes_carry_their_salt() {
    let h1 = hash_password_with_salt(&"pw".to_string(), "AAAAAAAAAAAAAAAAAAAAAA").ok().unwrap();
    let h2 = hash_password_with_salt(&"pw".to_string(), "AAAAAAAAAAAAAAAAAAAAAQ").ok().unwrap();
    assert_eq!(&h1[..30], "$argon2id$v=19$m=4096,t=3,p=1$");
    assert_eq!(&h1[30..52], "AAAAAAAAAAAAAAAAAAAAAA");
    assert_eq!(&h1[52..53], "$");
    assert_eq!(h1.len(), 30 + 22 + 44);
    assert_ne!(h1, h2);
}

#[test]
fn any_22_base64_characters_are_a_usable_salt() {
    for salt in ["zzzzzzzzzzzzzzzzzzzzzz", "++++++++++++++++++++++", "0123456789abcdefghijkl"] {
        assert!(hash_password_with_salt(&"pw".to_string(), salt).is_ok());
    }
    assert!(hash_password_with_salt(&"pw".to_string(), "$$$$$$$$$$$$$$$$$$$$$$").is_err());
}

#[test]
fn random_salts_are_22_characters() {
    let h = hash_password("hunter2".to_string()).ok().unwrap();
    let parts: Vec<&str> = h.split('$').collect();
    assert_eq!(parts.len(), 6);
    assert_eq!(parts[4].len(), 22);
    let h2 = hash_password("hunter2".to_string()).ok().unwrap();
    assert_ne!(h, h2);
}

#[test]
fn user_records() {
    let req = CreateUserRequest::new("a@b.c".to_string(), "ann".to_string(), "pw".to_string());
    let u = new_user(req, "hash".to_string(), 9, at(1));
    assert_eq!(u.user_id, 9);
    assert_eq!(u.username(), "ann");
    assert_eq!(u.email(), "a@b.c");
    assert_eq!(u.bio(), "");
    assert_eq!(u.image(), &None);
    assert_eq!(u.password_hash, "hash");
    assert_eq!(u.created_at, u.updated_at);

    let req = CreateUserRequest::new("a@b.c".to_string(), "ann".to_string(), "pw".to_string());
    let u = create_user_record(req, 10, at(2)).ok().unwrap();
    assert!(u.password_hash.starts_with("$argon2id$"));
    assert_eq!(u.username(), "ann");

    let mut u2 = UserModel::new(1, "b".to_string(), "e".to_string(), "bio".to_string(), Some("img".to_string()), "h".to_string(), at(1), at(1));
    u2.before_save(at(5));
    assert_eq!(u2.created_at, at(1));
    assert_eq!(u2.updated_at, at(5));
}

#[test]
fn defaults() {
    let r = CreateUserRequest::default();
    assert_eq!(r.email(), "");
    assert_eq!(r.username(), "");
    assert_eq!(r.password(), "");
    assert!(!CreateUserResponse::default().success);
    assert!(GetUsersResponse::default().users.is_empty());
}

#[test]
fn hashed_passwords_verify() {
    let h = hash_password("correct horse".to_string()).ok().unwrap();
    assert!(verify_password(&"correct horse".to_string(), &h));
    assert!(!verify_password(&"wrong horse".to_string(), &h));
    assert!(!verify_password(&"correct horse".to_string(), &"not a hash".to_string()));
    let h2 = hash_password_with_salt(&"pw".to_string(), "AAAAAAAAAAAAAAAAAAAAAA").ok().unwrap();
    assert!(verify_password(&"pw".to_string(), &h2));
}

#[test]
fn project_requests_clone_and_compare() {
    let a = ProjectRequest { title: "t".to_string(), text: "x".to_string() };
    let b = a.clone();
    assert_eq!(a, b);
    assert_ne!(a, ProjectRequest { title: "t".to_string(), text: "y".to_string() });
}
