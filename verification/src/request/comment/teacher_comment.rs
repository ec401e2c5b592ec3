//! The endpoints for comments about teachers.
//!
//! Reads project the comment through the view projector, hiding the author
//! from everyone but the author and admins. Creating a comment never
//! trusts a client-supplied author: the author is forced to the caller's
//! own subject id. Votes are upserts keyed by (comment, voter), and
//! deletion is open to the author or an admin.

use vstd::prelude::*;

use crate::auth::{spec_authenticate, view_opt_str, Claims};
use crate::error::{BabibappError, ErrorKind};
use crate::models::comment::{
    CommentV, CommentViewV, NewTeacherComment, TeacherComment, TeacherCommentView,
    TeacherCommentVote, VoteV,
};
use crate::policy::{policy_allows, Policy};
use crate::project::{project_teacher_comment, spec_project_comment};
use crate::request::{require_auth, res_view};
use crate::store::{
    find_comment, find_vote, has_vote, lemma_set_vote_finds, spec_delete_comment, spec_next_after_set,
    spec_score, spec_set_vote, spec_unvote, vote_index, Store, StoreV, MAX_ROWS,
};

verus! {

/// What a read of one teacher comment yields for this caller.
pub open spec fn spec_get(s: StoreV, auth: Option<Claims>, comment_id: i32) -> Result<
    CommentViewV,
    ErrorKind,
> {
    match auth {
        None => Err(ErrorKind::Unauthenticated),
        Some(c) => match find_comment(s.teacher_comments, comment_id) {
            None => Err(ErrorKind::NotFound),
            Some(cm) => Ok(spec_project_comment(cm, c)),
        },
    }
}

/// What a read of the whole table yields: every comment, each projected
/// for this caller.
pub open spec fn spec_get_all(s: StoreV, auth: Option<Claims>) -> Result<
    Seq<CommentViewV>,
    ErrorKind,
> {
    match auth {
        None => Err(ErrorKind::Unauthenticated),
        Some(c) => Ok(s.teacher_comments.map_values(|cm: CommentV| spec_project_comment(cm, c))),
    }
}

/// What a score read yields: the net score over the vote table; a comment
/// nobody voted on scores zero.
pub open spec fn spec_get_vote(s: StoreV, auth: Option<Claims>, comment_id: i32) -> Result<
    int,
    ErrorKind,
> {
    match auth {
        None => Err(ErrorKind::Unauthenticated),
        Some(_) => Ok(spec_score(s.teacher_comment_votes, comment_id)),
    }
}

/// What creating a teacher comment does: any authenticated caller; the
/// author is the caller, and the comment is published at `now`.
pub open spec fn spec_create(
    s: StoreV,
    auth: Option<Claims>,
    receiver_id: i32,
    body: Seq<char>,
    now: i64,
) -> (Result<CommentV, ErrorKind>, StoreV) {
    match auth {
        None => (Err(ErrorKind::Unauthenticated), s),
        Some(c) => if s.next_teacher_comment_id == i32::MAX || s.teacher_comments.len()
            >= MAX_ROWS {
            (Err(ErrorKind::Internal), s)
        } else {
            let row = CommentV {
                id: s.next_teacher_comment_id,
                author_id: c.id,
                receiver_id: receiver_id,
                body: body,
                published: now,
            };
            (
                Ok(row),
                StoreV {
                    teacher_comments: s.teacher_comments.push(row),
                    next_teacher_comment_id: (s.next_teacher_comment_id + 1) as i32,
                    ..s
                },
            )
        },
    }
}

/// What casting a vote does: any authenticated caller; the voter's row for
/// the comment is overwritten or inserted.
pub open spec fn spec_do_vote(s: StoreV, auth: Option<Claims>, comment_id: i32, upvote: bool)
    -> (Result<VoteV, ErrorKind>, StoreV) {
    match auth {
        None => (Err(ErrorKind::Unauthenticated), s),
        Some(c) => if !has_vote(s.teacher_comment_votes, comment_id, c.id) && (
        s.next_teacher_comment_vote_id == i32::MAX || s.teacher_comment_votes.len() >= MAX_ROWS) {
            (Err(ErrorKind::Internal), s)
        } else {
            let row = VoteV {
                id: if has_vote(s.teacher_comment_votes, comment_id, c.id) {
                    s.teacher_comment_votes[vote_index(
                        s.teacher_comment_votes,
                        comment_id,
                        c.id,
                    )].id
                } else {
                    s.next_teacher_comment_vote_id
                },
                comment_id: comment_id,
                student_id: c.id,
                upvote: upvote,
            };
            (
                Ok(row),
                StoreV {
                    teacher_comment_votes: spec_set_vote(
                        s.teacher_comment_votes,
                        s.next_teacher_comment_vote_id,
                        comment_id,
                        c.id,
                        upvote,
                    ),
                    next_teacher_comment_vote_id: spec_next_after_set(
                        s.teacher_comment_votes,
                        s.next_teacher_comment_vote_id,
                        comment_id,
                        c.id,
                    ),
                    ..s
                },
            )
        },
    }
}

/// What removing a vote does: any authenticated caller; the removed row is
/// reported, and the absence of one is a distinct, non-error outcome.
pub open spec fn spec_do_unvote(s: StoreV, auth: Option<Claims>, comment_id: i32) -> (Result<
    Option<VoteV>,
    ErrorKind,
>, StoreV) {
    match auth {
        None => (Err(ErrorKind::Unauthenticated), s),
        Some(c) => (
            Ok(find_vote(s.teacher_comment_votes, comment_id, c.id)),
            StoreV {
                teacher_comment_votes: spec_unvote(s.teacher_comment_votes, comment_id, c.id),
                ..s
            },
        ),
    }
}

/// What deleting a teacher comment does: the author or an admin; the
/// deleted row is returned.
pub open spec fn spec_delete(s: StoreV, auth: Option<Claims>, comment_id: i32) -> (Result<
    CommentV,
    ErrorKind,
>, StoreV) {
    match auth {
        None => (Err(ErrorKind::Unauthenticated), s),
        Some(c) => match find_comment(s.teacher_comments, comment_id) {
            None => (Err(ErrorKind::NotFound), s),
            Some(cm) => if !policy_allows(Policy::IsAuthorOrAdmin, c, cm.author_id) {
                (Err(ErrorKind::Forbidden), s)
            } else {
                (
                    Ok(cm),
                    StoreV {
                        teacher_comments: spec_delete_comment(s.teacher_comments, comment_id),
                        ..s
                    },
                )
            },
        },
    }
}

/// Read one teacher comment, projected for the caller.
pub fn get(store: &Store, auth_header: Option<&str>, secret: &str, now: i64, comment_id: i32)
    -> (r: Result<TeacherCommentView, BabibappError>)
    requires
        store.wf(),
    ensures
        res_view(r) == spec_get(
            store@,
            spec_authenticate(view_opt_str(auth_header), secret@, now),
            comment_id,
        ),
{
    let claims = match require_auth(auth_header, secret, now) {
        Ok(c) => c,
        Err(e) => {
            return Err(e);
        },
    };
    match store.get_teacher_comment(comment_id) {
        None => Err(BabibappError::with_msg(ErrorKind::NotFound, "no comment with this id")),
        Some(comment) => Ok(project_teacher_comment(&comment, &claims)),
    }
}

/// Read the whole table, each comment projected for the caller.
pub fn get_all(store: &Store, auth_header: Option<&str>, secret: &str, now: i64) -> (r: Result<
    Vec<TeacherCommentView>,
    BabibappError,
>)
    requires
        store.wf(),
    ensures
        match spec_get_all(store@, spec_authenticate(view_opt_str(auth_header), secret@, now)) {
            Ok(views) => r is Ok && (r->Ok_0)@.map_values(|v: TeacherCommentView| v@) == views,
            Err(k) => r is Err && (r->Err_0).kind == k,
        },
{
    let claims = match require_auth(auth_header, secret, now) {
        Ok(c) => c,
        Err(e) => {
            return Err(e);
        },
    };
    let n = store.teacher_comments.len();
    let mut views: Vec<TeacherCommentView> = Vec::new();
    let mut i: usize = 0;
    while i < n
        invariant
            n == store@.teacher_comments.len(),
            0 <= i <= n,
            views@.len() == i,
            forall|j: int|
                0 <= j < i ==> (#[trigger] views@[j])@ == spec_project_comment(
                    store@.teacher_comments[j],
                    claims,
                ),
        decreases n - i,
    {
        views.push(project_teacher_comment(&store.teacher_comments[i], &claims));
        i += 1;
    }
    proof {
        assert(views@.map_values(|v: TeacherCommentView| v@) =~= store@.teacher_comments.map_values(
            |cm: CommentV| spec_project_comment(cm, claims),
        ));
    }
    Ok(views)
}

/// Read a comment's net score.
pub fn get_vote(store: &Store, auth_header: Option<&str>, secret: &str, now: i64, comment_id: i32)
    -> (r: Result<i64, BabibappError>)
    requires
        store.wf(),
    ensures
        match spec_get_vote(
            store@,
            spec_authenticate(view_opt_str(auth_header), secret@, now),
            comment_id,
        ) {
            Ok(score) => r is Ok && r->Ok_0 == score,
            Err(k) => r is Err && (r->Err_0).kind == k,
        },
{
    let _claims = match require_auth(auth_header, secret, now) {
        Ok(c) => c,
        Err(e) => {
            return Err(e);
        },
    };
    Ok(store.teacher_comment_score(comment_id))
}

/// Create a comment about a teacher; the author is the caller.
pub fn create(
    store: &mut Store,
    auth_header: Option<&str>,
    secret: &str,
    now: i64,
    receiver_id: i32,
    body: &String,
) -> (r: Result<TeacherComment, BabibappError>)
    requires
        old(store).wf(),
    ensures
        final(store).wf(),
        (res_view(r), final(store)@) == spec_create(
            old(store)@,
            spec_authenticate(view_opt_str(auth_header), secret@, now),
            receiver_id,
            body@,
            now,
        ),
{
    let claims = match require_auth(auth_header, secret, now) {
        Ok(c) => c,
        Err(e) => {
            return Err(e);
        },
    };
    let new = NewTeacherComment {
        author_id: claims.id,
        receiver_id,
        body: body.clone(),
        published: Some(now),
    };
    match store.insert_teacher_comment(new, now) {
        Ok(c) => Ok(c),
        Err(e) => Err(e),
    }
}

/// Cast an upvote on a teacher comment, inserting or overwriting the
/// caller's vote row.
pub fn do_upvote(
    store: &mut Store,
    auth_header: Option<&str>,
    secret: &str,
    now: i64,
    comment_id: i32,
) -> (r: Result<TeacherCommentVote, BabibappError>)
    requires
        old(store).wf(),
    ensures
        final(store).wf(),
        (res_view(r), final(store)@) == spec_do_vote(
            old(store)@,
            spec_authenticate(view_opt_str(auth_header), secret@, now),
            comment_id,
            true,
        ),
{
    let claims = match require_auth(auth_header, secret, now) {
        Ok(c) => c,
        Err(e) => {
            return Err(e);
        },
    };
    let ghost old_votes = store@.teacher_comment_votes;
    let ghost old_next = store@.next_teacher_comment_vote_id;
    match store.set_teacher_comment_vote(comment_id, claims.id, true) {
        Ok(v) => {
            proof {
                lemma_set_vote_finds(old_votes, old_next, comment_id, claims.id, true);
            }
            Ok(v)
        },
        Err(e) => Err(e),
    }
}

/// Cast a downvote on a teacher comment, inserting or overwriting the
/// caller's vote row.
pub fn do_downvote(
    store: &mut Store,
    auth_header: Option<&str>,
    secret: &str,
    now: i64,
    comment_id: i32,
) -> (r: Result<TeacherCommentVote, BabibappError>)
    requires
        old(store).wf(),
    ensures
        final(store).wf(),
        (res_view(r), final(store)@) == spec_do_vote(
            old(store)@,
            spec_authenticate(view_opt_str(auth_header), secret@, now),
            comment_id,
            false,
        ),
{
    let claims = match require_auth(auth_header, secret, now) {
        Ok(c) => c,
        Err(e) => {
            return Err(e);
        },
    };
    let ghost old_votes = store@.teacher_comment_votes;
    let ghost old_next = store@.next_teacher_comment_vote_id;
    match store.set_teacher_comment_vote(comment_id, claims.id, false) {
        Ok(v) => {
            proof {
                lemma_set_vote_finds(old_votes, old_next, comment_id, claims.id, false);
            }
            Ok(v)
        },
        Err(e) => Err(e),
    }
}

/// Remove the caller's vote on a teacher comment; removing a vote that
/// does not exist is a no-op, reported distinctly from a deletion.
pub fn do_unvote(
    store: &mut Store,
    auth_header: Option<&str>,
    secret: &str,
    now: i64,
    comment_id: i32,
) -> (r: Result<Option<TeacherCommentVote>, BabibappError>)
    requires
        old(store).wf(),
    ensures
        final(store).wf(),
        match spec_do_unvote(
            old(store)@,
            spec_authenticate(view_opt_str(auth_header), secret@, now),
            comment_id,
        ).0 {
            Ok(opt) => r is Ok && (match r->Ok_0 {
                Some(v) => opt == Some(v@),
                None => opt is None,
            }),
            Err(k) => r is Err && (r->Err_0).kind == k,
        },
        final(store)@ == spec_do_unvote(
            old(store)@,
            spec_authenticate(view_opt_str(auth_header), secret@, now),
            comment_id,
        ).1,
{
    let claims = match require_auth(auth_header, secret, now) {
        Ok(c) => c,
        Err(e) => {
            return Err(e);
        },
    };
    Ok(store.unvote_teacher_comment(comment_id, claims.id))
}

/// Delete a teacher comment: the author or an admin; the deleted row is
/// returned.
pub fn delete(
    store: &mut Store,
    auth_header: Option<&str>,
    secret: &str,
    now: i64,
    comment_id: i32,
) -> (r: Result<TeacherComment, BabibappError>)
    requires
        old(store).wf(),
    ensures
        final(store).wf(),
        (res_view(r), final(store)@) == spec_delete(
            old(store)@,
            spec_authenticate(view_opt_str(auth_header), secret@, now),
            comment_id,
        ),
{
    let claims = match require_auth(auth_header, secret, now) {
        Ok(c) => c,
        Err(e) => {
            return Err(e);
        },
    };
    let comment = match store.get_teacher_comment(comment_id) {
        None => {
            return Err(BabibappError::with_msg(ErrorKind::NotFound, "no comment with this id"));
        },
        Some(c) => c,
    };
    if !Policy::IsAuthorOrAdmin.allows(&claims, comment.author_id) {
        return Err(
            BabibappError::with_msg(ErrorKind::Forbidden, "access only for the author or admins"),
        );
    }
    match store.delete_teacher_comment(comment_id) {
        None => Err(BabibappError::with_msg(ErrorKind::NotFound, "no comment with this id")),
        Some(c) => Ok(c),
    }
}

} // verus!
