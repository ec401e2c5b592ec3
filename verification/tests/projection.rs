//! Projection totality and non-leakage: full exactly for the owner or an
//! admin, and the limited shapes carry no privileged fields.

use babibapp::auth::Claims;
use babibapp::models::comment::{StudentComment, StudentCommentView, TeacherComment, TeacherCommentView};
use babibapp::models::student::{Student, StudentView};
use babibapp::project::{project_student, project_student_comment, project_teacher_comment};

const NOW: i64 = 1_700_000_000;

fn student() -> Student {
    Student {
        id: 7,
        email: "ada@example.org".to_string(),
        first_name: "Ada".to_string(),
        last_name: "Lovelace".to_string(),
        password_hash: "$2b$08$somesalt".to_string(),
        admin: false,
    }
}

fn comment() -> StudentComment {
    StudentComment {
        id: 3,
        author_id: 7,
        receiver_id: 9,
        body: "quite good at maths".to_string(),
        published: NOW,
    }
}

fn claims(id: i32, admin: bool) -> Claims {
    Claims { id, admin, exp: NOW + 3600 }
}

#[test]
fn owner_sees_the_full_account() {
    match project_student(&student(), &claims(7, false)) {
        StudentView::Full(s) => {
            assert_eq!(s.email, "ada@example.org");
            assert_eq!(s.password_hash, "$2b$08$somesalt");
        }
        StudentView::Limited(_) => panic!("owner must see the full account"),
    }
}

#[test]
fn admin_sees_the_full_account() {
    match project_student(&student(), &claims(99, true)) {
        StudentView::Full(s) => assert_eq!(s.id, 7),
        StudentView::Limited(_) => panic!("admin must see the full account"),
    }
}

#[test]
fn others_see_only_id_and_name() {
    match project_student(&student(), &claims(8, false)) {
        StudentView::Limited(s) => {
            assert_eq!(s.id, 7);
            assert_eq!(s.first_name, "Ada");
            assert_eq!(s.last_name, "Lovelace");
        }
        StudentView::Full(_) => panic!("a stranger must not see the full account"),
    }
}

#[test]
fn author_and_admin_see_the_full_comment() {
    match project_student_comment(&comment(), &claims(7, false)) {
        StudentCommentView::Full(c) => assert_eq!(c.author_id, 7),
        StudentCommentView::Limited(_) => panic!("author must see the full comment"),
    }
    match project_student_comment(&comment(), &claims(50, true)) {
        StudentCommentView::Full(c) => assert_eq!(c.author_id, 7),
        StudentCommentView::Limited(_) => panic!("admin must see the full comment"),
    }
}

#[test]
fn the_receiver_does_not_learn_the_author() {
    match project_student_comment(&comment(), &claims(9, false)) {
        StudentCommentView::Limited(c) => {
            assert_eq!(c.id, 3);
            assert_eq!(c.receiver_id, 9);
            assert_eq!(c.body, "quite good at maths");
            assert_eq!(c.published, NOW);
        }
        StudentCommentView::Full(_) => panic!("the receiver must not see the author"),
    }
}

#[test]
fn teacher_comments_project_the_same_way() {
    let tc = TeacherComment {
        id: 4,
        author_id: 7,
        receiver_id: 2,
        body: "lectures too fast".to_string(),
        published: NOW,
    };
    match project_teacher_comment(&tc, &claims(7, false)) {
        TeacherCommentView::Full(c) => assert_eq!(c.author_id, 7),
        TeacherCommentView::Limited(_) => panic!("author must see the full comment"),
    }
    match project_teacher_comment(&tc, &claims(2, false)) {
        TeacherCommentView::Limited(c) => assert_eq!(c.receiver_id, 2),
        TeacherCommentView::Full(_) => panic!("a stranger must not see the author"),
    }
}
