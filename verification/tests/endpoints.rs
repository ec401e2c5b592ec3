//! End-to-end flows through the endpoint family, with real signed tokens
//! and real password hashes.

use babibapp::auth::decode_jwt;
use babibapp::error::ErrorKind;
use babibapp::models::comment::StudentCommentView;
use babibapp::models::student::{LoginStudent, RegisterStudent, StudentView};
use babibapp::models::teacher::NewTeacher;
use babibapp::models::wrappers::{EmailWrapper, NameWrapper};
use babibapp::request::comment::student_comment;
use babibapp::request::student;
use babibapp::request::teacher;
use babibapp::request::token::generate;
use babibapp::settings::{RootSettings, TokenSettings};
use babibapp::store::Store;

const NOW: i64 = 1_700_000_000;

fn token_settings() -> TokenSettings {
    TokenSettings { secret: "endpoint-secret".to_string(), expiration_hours: 24 }
}

fn root_settings() -> RootSettings {
    RootSettings {
        email: "root@example.org".to_string(),
        password: "root-pw".to_string(),
        expiration_minutes: 5,
    }
}

fn login(store: &Store, email: &str, password: &str) -> String {
    let form = LoginStudent { email: email.to_string(), password: password.to_string() };
    let tw = generate(store, &token_settings(), &root_settings(), &form, NOW).unwrap();
    format!("Bearer {}", tw.token)
}

fn root_header(store: &Store) -> String {
    login(store, "root@example.org", "root-pw")
}

fn register(store: &mut Store, header: &str, email: &str, first: &str, last: &str, password: &str) -> i32 {
    let form = RegisterStudent {
        email: email.to_string(),
        first_name: first.to_string(),
        last_name: last.to_string(),
        password: password.to_string(),
        admin: None,
    };
    student::register(store, Some(header), "endpoint-secret", NOW, &form)
        .unwrap()
        .id
}

#[test]
fn root_bootstrap_token_is_admin_subject_zero_with_short_expiry() {
    let store = Store::new();
    let form = LoginStudent {
        email: "root@example.org".to_string(),
        password: "root-pw".to_string(),
    };
    let tw = generate(&store, &token_settings(), &root_settings(), &form, NOW).unwrap();
    let claims = decode_jwt(&tw.token, "endpoint-secret").unwrap();
    assert_eq!(claims.id, 0);
    assert!(claims.admin);
    assert_eq!(claims.exp, NOW + 5 * 60);
    assert!(claims.exp < NOW + 24 * 3600);
}

#[test]
fn login_with_wrong_password_or_unknown_email() {
    let mut store = Store::new();
    let root = root_header(&store);
    register(&mut store, &root, "a@example.org", "Ada", "Lovelace", "pw-a");

    let wrong = LoginStudent { email: "a@example.org".to_string(), password: "nope".to_string() };
    let err = generate(&store, &token_settings(), &root_settings(), &wrong, NOW).unwrap_err();
    assert_eq!(err.kind, ErrorKind::Unauthenticated);

    let unknown = LoginStudent { email: "b@example.org".to_string(), password: "pw".to_string() };
    let err = generate(&store, &token_settings(), &root_settings(), &unknown, NOW).unwrap_err();
    assert_eq!(err.kind, ErrorKind::NotFound);
}

#[test]
fn registration_needs_an_admin() {
    let mut store = Store::new();
    let root = root_header(&store);
    register(&mut store, &root, "a@example.org", "Ada", "Lovelace", "pw-a");
    let a = login(&store, "a@example.org", "pw-a");

    let form = RegisterStudent {
        email: "b@example.org".to_string(),
        first_name: "Grace".to_string(),
        last_name: "Hopper".to_string(),
        password: "pw-b".to_string(),
        admin: None,
    };
    let err = student::register(&mut store, Some(&a), "endpoint-secret", NOW, &form).unwrap_err();
    assert_eq!(err.kind, ErrorKind::Forbidden);
    assert_eq!(store.students.len(), 1);
}

#[test]
fn ownership_gated_name_reset() {
    let mut store = Store::new();
    let root = root_header(&store);
    let _a_id = register(&mut store, &root, "a@example.org", "Ada", "Lovelace", "pw-a");
    let b_id = register(&mut store, &root, "b@example.org", "Grace", "Hopper", "pw-b");
    let a = login(&store, "a@example.org", "pw-a");

    let new_name = NameWrapper { first_name: "G.".to_string(), last_name: "Hopper-Murray".to_string() };
    let err = student::reset_name(&mut store, Some(&a), "endpoint-secret", NOW, b_id, &new_name)
        .unwrap_err();
    assert_eq!(err.kind, ErrorKind::Forbidden);

    let updated = student::reset_name(&mut store, Some(&root), "endpoint-secret", NOW, b_id, &new_name)
        .unwrap();
    assert_eq!(updated.first_name, "G.");

    match student::get(&store, Some(&a), "endpoint-secret", NOW, b_id).unwrap() {
        StudentView::Limited(s) => {
            assert_eq!(s.first_name, "G.");
            assert_eq!(s.last_name, "Hopper-Murray");
        }
        StudentView::Full(_) => panic!("a stranger must get the limited view"),
    }
    match student::get(&store, Some(&root), "endpoint-secret", NOW, b_id).unwrap() {
        StudentView::Full(s) => assert_eq!(s.first_name, "G."),
        StudentView::Limited(_) => panic!("an admin must get the full view"),
    }
}

#[test]
fn self_service_boundary() {
    let mut store = Store::new();
    let root = root_header(&store);
    let a_id = register(&mut store, &root, "a@example.org", "Ada", "Lovelace", "pw-a");
    let a = login(&store, "a@example.org", "pw-a");

    let new_email = EmailWrapper { email: "countess@example.org".to_string() };
    let updated = student::reset_email(&mut store, Some(&a), "endpoint-secret", NOW, a_id, &new_email)
        .unwrap();
    assert_eq!(updated.email, "countess@example.org");

    let own_name = NameWrapper { first_name: "A.".to_string(), last_name: "L.".to_string() };
    let err = student::reset_name(&mut store, Some(&a), "endpoint-secret", NOW, a_id, &own_name)
        .unwrap_err();
    assert_eq!(err.kind, ErrorKind::Forbidden);
}

#[test]
fn deletion_is_self_or_admin() {
    let mut store = Store::new();
    let root = root_header(&store);
    let a_id = register(&mut store, &root, "a@example.org", "Ada", "Lovelace", "pw-a");
    let b_id = register(&mut store, &root, "b@example.org", "Grace", "Hopper", "pw-b");
    let a = login(&store, "a@example.org", "pw-a");

    let err = student::delete(&mut store, Some(&a), "endpoint-secret", NOW, b_id).unwrap_err();
    assert_eq!(err.kind, ErrorKind::Forbidden);
    let deleted = student::delete(&mut store, Some(&a), "endpoint-secret", NOW, a_id).unwrap();
    assert_eq!(deleted.id, a_id);
    assert_eq!(store.students.len(), 1);
    let err = student::delete(&mut store, Some(&root), "endpoint-secret", NOW, a_id).unwrap_err();
    assert_eq!(err.kind, ErrorKind::NotFound);
}

#[test]
fn make_admin_and_full_reset_are_admin_only() {
    let mut store = Store::new();
    let root = root_header(&store);
    let a_id = register(&mut store, &root, "a@example.org", "Ada", "Lovelace", "pw-a");
    let a = login(&store, "a@example.org", "pw-a");

    let err = student::make_admin(&mut store, Some(&a), "endpoint-secret", NOW, a_id).unwrap_err();
    assert_eq!(err.kind, ErrorKind::Forbidden);
    let promoted = student::make_admin(&mut store, Some(&root), "endpoint-secret", NOW, a_id).unwrap();
    assert!(promoted.admin);

    let form = RegisterStudent {
        email: "new@example.org".to_string(),
        first_name: "N".to_string(),
        last_name: "N".to_string(),
        password: "fresh".to_string(),
        admin: None,
    };
    let reset = student::full_reset(&mut store, Some(&root), "endpoint-secret", NOW, a_id, &form)
        .unwrap();
    assert_eq!(reset.email, "new@example.org");
    assert!(!reset.admin);
    let relogin = login(&store, "new@example.org", "fresh");
    assert!(relogin.starts_with("Bearer "));
}

#[test]
fn expired_tokens_are_not_authenticated() {
    let mut store = Store::new();
    let root = root_header(&store);
    let later = NOW + 6 * 60;
    let err = student::get_all(&store, Some(&root), "endpoint-secret", later).unwrap_err();
    assert_eq!(err.kind, ErrorKind::Unauthenticated);
    let err = student::get_self(&store, None, "endpoint-secret", NOW).unwrap_err();
    assert_eq!(err.kind, ErrorKind::Unauthenticated);
    let form = NewTeacher { name: "Knuth".to_string(), prefix: "Prof.".to_string() };
    let err = teacher::add(&mut store, Some("Bearer junk"), "endpoint-secret", NOW, &form)
        .unwrap_err();
    assert_eq!(err.kind, ErrorKind::Unauthenticated);
}

#[test]
fn teachers_are_admin_managed_but_readable_by_all() {
    let mut store = Store::new();
    let root = root_header(&store);
    register(&mut store, &root, "a@example.org", "Ada", "Lovelace", "pw-a");
    let a = login(&store, "a@example.org", "pw-a");

    let form = NewTeacher { name: "Knuth".to_string(), prefix: "Prof.".to_string() };
    let err = teacher::add(&mut store, Some(&a), "endpoint-secret", NOW, &form).unwrap_err();
    assert_eq!(err.kind, ErrorKind::Forbidden);
    let t = teacher::add(&mut store, Some(&root), "endpoint-secret", NOW, &form).unwrap();

    let seen = teacher::get(&store, Some(&a), "endpoint-secret", NOW, t.id).unwrap();
    assert_eq!(seen.name, "Knuth");
    let all = teacher::get_all(&store, Some(&a), "endpoint-secret", NOW).unwrap();
    assert_eq!(all.len(), 1);

    let renamed = NewTeacher { name: "Knuth".to_string(), prefix: "Dr.".to_string() };
    let err = teacher::reset(&mut store, Some(&a), "endpoint-secret", NOW, t.id, &renamed)
        .unwrap_err();
    assert_eq!(err.kind, ErrorKind::Forbidden);
    let updated = teacher::reset(&mut store, Some(&root), "endpoint-secret", NOW, t.id, &renamed)
        .unwrap();
    assert_eq!(updated.prefix, "Dr.");

    let err = teacher::delete(&mut store, Some(&a), "endpoint-secret", NOW, t.id).unwrap_err();
    assert_eq!(err.kind, ErrorKind::Forbidden);
    let gone = teacher::delete(&mut store, Some(&root), "endpoint-secret", NOW, t.id).unwrap();
    assert_eq!(gone.id, t.id);
    let err = teacher::get(&store, Some(&a), "endpoint-secret", NOW, t.id).unwrap_err();
    assert_eq!(err.kind, ErrorKind::NotFound);
}

#[test]
fn comment_author_is_forced_to_the_caller() {
    let mut store = Store::new();
    let root = root_header(&store);
    let a_id = register(&mut store, &root, "a@example.org", "Ada", "Lovelace", "pw-a");
    let b_id = register(&mut store, &root, "b@example.org", "Grace", "Hopper", "pw-b");
    let a = login(&store, "a@example.org", "pw-a");
    let b = login(&store, "b@example.org", "pw-b");

    let body = "writes very tidy proofs".to_string();
    let comment = student_comment::create(&mut store, Some(&a), "endpoint-secret", NOW, b_id, &body)
        .unwrap();
    assert_eq!(comment.author_id, a_id);
    assert_eq!(comment.receiver_id, b_id);
    assert_eq!(comment.published, NOW);

    match student_comment::get(&store, Some(&b), "endpoint-secret", NOW, comment.id).unwrap() {
        StudentCommentView::Limited(c) => assert_eq!(c.body, "writes very tidy proofs"),
        StudentCommentView::Full(_) => panic!("the receiver must not learn the author"),
    }
    match student_comment::get(&store, Some(&a), "endpoint-secret", NOW, comment.id).unwrap() {
        StudentCommentView::Full(c) => assert_eq!(c.author_id, a_id),
        StudentCommentView::Limited(_) => panic!("the author must see the full comment"),
    }

    let err = student_comment::delete(&mut store, Some(&b), "endpoint-secret", NOW, comment.id)
        .unwrap_err();
    assert_eq!(err.kind, ErrorKind::Forbidden);
    let deleted = student_comment::delete(&mut store, Some(&a), "endpoint-secret", NOW, comment.id)
        .unwrap();
    assert_eq!(deleted.id, comment.id);
    assert_eq!(store.student_comments.len(), 0);
}

#[test]
fn vote_endpoints_upsert_and_score() {
    let mut store = Store::new();
    let root = root_header(&store);
    let b_id = register(&mut store, &root, "b@example.org", "Grace", "Hopper", "pw-b");
    register(&mut store, &root, "a@example.org", "Ada", "Lovelace", "pw-a");
    let a = login(&store, "a@example.org", "pw-a");
    let b = login(&store, "b@example.org", "pw-b");

    let body = "solid work".to_string();
    let comment = student_comment::create(&mut store, Some(&a), "endpoint-secret", NOW, b_id, &body)
        .unwrap();

    student_comment::do_upvote(&mut store, Some(&a), "endpoint-secret", NOW, comment.id).unwrap();
    student_comment::do_upvote(&mut store, Some(&b), "endpoint-secret", NOW, comment.id).unwrap();
    let score = student_comment::get_vote(&store, Some(&a), "endpoint-secret", NOW, comment.id)
        .unwrap();
    assert_eq!(score, 2);

    student_comment::do_downvote(&mut store, Some(&b), "endpoint-secret", NOW, comment.id).unwrap();
    assert_eq!(store.student_comment_votes.len(), 2);
    let score = student_comment::get_vote(&store, Some(&a), "endpoint-secret", NOW, comment.id)
        .unwrap();
    assert_eq!(score, 0);

    let removed = student_comment::do_unvote(&mut store, Some(&b), "endpoint-secret", NOW, comment.id)
        .unwrap();
    assert!(removed.is_some());
    let again = student_comment::do_unvote(&mut store, Some(&b), "endpoint-secret", NOW, comment.id)
        .unwrap();
    assert!(again.is_none());
    let score = student_comment::get_vote(&store, Some(&a), "endpoint-secret", NOW, comment.id)
        .unwrap();
    assert_eq!(score, 1);
}

#[test]
fn get_all_students_projects_per_row() {
    let mut store = Store::new();
    let root = root_header(&store);
    let a_id = register(&mut store, &root, "a@example.org", "Ada", "Lovelace", "pw-a");
    register(&mut store, &root, "b@example.org", "Grace", "Hopper", "pw-b");
    let a = login(&store, "a@example.org", "pw-a");

    let views = student::get_all(&store, Some(&a), "endpoint-secret", NOW).unwrap();
    assert_eq!(views.len(), 2);
    match &views[0] {
        StudentView::Full(s) => assert_eq!(s.id, a_id),
        StudentView::Limited(_) => panic!("the caller's own row is full"),
    }
    match &views[1] {
        StudentView::Limited(s) => assert_eq!(s.first_name, "Grace"),
        StudentView::Full(_) => panic!("another student's row is limited"),
    }

    let self_row = student::get_self(&store, Some(&a), "endpoint-secret", NOW).unwrap();
    assert_eq!(self_row.id, a_id);
}
