//! The view projector: redaction of entities into full or limited views.
//!
//! The rule is uniform: the caller sees the full entity exactly when they
//! are an admin or own it; everyone else gets the limited shape, a type
//! that simply has no field for the redacted data — an account's email and
//! password hash, a comment's author. Projection is pure and total: every
//! read yields one of the two shapes, never a refusal.

use vstd::prelude::*;

use crate::auth::Claims;
use crate::models::comment::{
    CommentV, CommentViewV, LimitedViewCommentV, LimitedViewStudentComment,
    LimitedViewTeacherComment, StudentComment, StudentCommentView, TeacherComment,
    TeacherCommentView,
};
use crate::models::student::{
    LimitedViewStudent, LimitedViewStudentV, Student, StudentV, StudentView, StudentViewV,
};
use crate::policy::{policy_allows, Policy};

verus! {

/// Whether these claims may see the full shape of an entity owned by
/// `owner_id`: the owner themselves, or any admin.
pub open spec fn spec_can_view_full(c: Claims, owner_id: i32) -> bool {
    policy_allows(Policy::IsSelfOrAdmin, c, owner_id)
}

/// The projection of a student account: owner is the account itself.
pub open spec fn spec_project_student(s: StudentV, c: Claims) -> StudentViewV {
    if spec_can_view_full(c, s.id) {
        StudentViewV::Full(s)
    } else {
        StudentViewV::Limited(
            LimitedViewStudentV { id: s.id, first_name: s.first_name, last_name: s.last_name },
        )
    }
}

/// The projection of a comment: owner is the author.
pub open spec fn spec_project_comment(cm: CommentV, c: Claims) -> CommentViewV {
    if spec_can_view_full(c, cm.author_id) {
        CommentViewV::Full(cm)
    } else {
        CommentViewV::Limited(
            LimitedViewCommentV {
                id: cm.id,
                receiver_id: cm.receiver_id,
                body: cm.body,
                published: cm.published,
            },
        )
    }
}

/// Project a student account for this caller.
pub fn project_student(student: &Student, claims: &Claims) -> (r: StudentView)
    ensures
        r@ == spec_project_student(student@, *claims),
{
    if claims.admin || claims.id == student.id {
        StudentView::Full(student.duplicate())
    } else {
        StudentView::Limited(
            LimitedViewStudent {
                id: student.id,
                first_name: student.first_name.clone(),
                last_name: student.last_name.clone(),
            },
        )
    }
}

/// Project a student comment for this caller.
pub fn project_student_comment(comment: &StudentComment, claims: &Claims) -> (r: StudentCommentView)
    ensures
        r@ == spec_project_comment(comment@, *claims),
{
    if claims.admin || claims.id == comment.author_id {
        StudentCommentView::Full(comment.duplicate())
    } else {
        StudentCommentView::Limited(
            LimitedViewStudentComment {
                id: comment.id,
                receiver_id: comment.receiver_id,
                body: comment.body.clone(),
                published: comment.published,
            },
        )
    }
}

/// Project a teacher comment for this caller.
pub fn project_teacher_comment(comment: &TeacherComment, claims: &Claims) -> (r: TeacherCommentView)
    ensures
        r@ == spec_project_comment(comment@, *claims),
{
    if claims.admin || claims.id == comment.author_id {
        TeacherCommentView::Full(comment.duplicate())
    } else {
        TeacherCommentView::Limited(
            LimitedViewTeacherComment {
                id: comment.id,
                receiver_id: comment.receiver_id,
                body: comment.body.clone(),
                published: comment.published,
            },
        )
    }
}

/// Projection totality and non-leakage for accounts: the projection is
/// `Full` exactly when the caller is an admin or the owner, and otherwise
/// it is the limited shape built from the id and the name alone — a value
/// that carries neither the email nor the password hash.
pub proof fn lemma_student_projection(s: StudentV, c: Claims)
    ensures
        spec_project_student(s, c) is Full <==> (c.admin || c.id == s.id),
        spec_project_student(s, c) is Full ==> spec_project_student(s, c)->Full_0 == s,
        spec_project_student(s, c) is Limited ==> spec_project_student(s, c)->Limited_0 == (
        LimitedViewStudentV { id: s.id, first_name: s.first_name, last_name: s.last_name }),
{
}

/// Projection totality and non-leakage for comments: `Full` exactly for an
/// admin or the author; the limited shape is built from the id, receiver,
/// body and publication instant alone — it carries no author.
pub proof fn lemma_comment_projection(cm: CommentV, c: Claims)
    ensures
        spec_project_comment(cm, c) is Full <==> (c.admin || c.id == cm.author_id),
        spec_project_comment(cm, c) is Full ==> spec_project_comment(cm, c)->Full_0 == cm,
        spec_project_comment(cm, c) is Limited ==> spec_project_comment(cm, c)->Limited_0 == (
        LimitedViewCommentV {
            id: cm.id,
            receiver_id: cm.receiver_id,
            body: cm.body,
            published: cm.published,
        }),
{
}

} // verus!
