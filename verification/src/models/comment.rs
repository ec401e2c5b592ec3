//! Comments about students and about teachers, and the vote rows attached
//! to them.
//!
//! The two comment families have the same shape and differ only in what the
//! receiver id refers to, so they share one ghost view type; the same holds
//! for the two vote families. Publication instants are carried as epoch
//! seconds.

use vstd::prelude::*;

verus! {

/// The ghost value shared by both comment families.
pub ghost struct CommentV {
    pub id: i32,
    pub author_id: i32,
    pub receiver_id: i32,
    pub body: Seq<char>,
    pub published: i64,
}

/// The ghost value shared by both vote families.
pub ghost struct VoteV {
    pub id: i32,
    pub comment_id: i32,
    pub student_id: i32,
    pub upvote: bool,
}

/// A stored comment about a student. Its owner is its author.
#[derive(Debug, Clone)]
pub struct StudentComment {
    pub id: i32,
    pub author_id: i32,
    pub receiver_id: i32,
    pub body: String,
    pub published: i64,
}

impl View for StudentComment {
    type V = CommentV;

    open spec fn view(&self) -> CommentV {
        CommentV {
            id: self.id,
            author_id: self.author_id,
            receiver_id: self.receiver_id,
            body: self.body@,
            published: self.published,
        }
    }
}

impl StudentComment {
    /// A field-by-field copy. (A derived `Clone` carries no specification,
    /// so the copy is spelled out.)
    pub fn duplicate(&self) -> (r: StudentComment)
        ensures
            r@ == self@,
    {
        StudentComment {
            id: self.id,
            author_id: self.author_id,
            receiver_id: self.receiver_id,
            body: self.body.clone(),
            published: self.published,
        }
    }
}

/// A student comment as handed to the store; the store assigns the id, and a
/// missing publication instant means "now".
#[derive(Debug, Clone)]
pub struct NewStudentComment {
    pub author_id: i32,
    pub receiver_id: i32,
    pub body: String,
    pub published: Option<i64>,
}

/// A stored vote on a student comment, unique per (comment, voter).
#[derive(Debug, Clone, Copy)]
pub struct StudentCommentVote {
    pub id: i32,
    pub comment_id: i32,
    pub student_id: i32,
    pub upvote: bool,
}

impl View for StudentCommentVote {
    type V = VoteV;

    open spec fn view(&self) -> VoteV {
        VoteV {
            id: self.id,
            comment_id: self.comment_id,
            student_id: self.student_id,
            upvote: self.upvote,
        }
    }
}

/// A vote on a student comment as handed to the store.
#[derive(Debug, Clone)]
pub struct NewStudentCommentVote {
    pub comment_id: i32,
    pub student_id: i32,
    pub upvote: bool,
}

/// A stored comment about a teacher. Its owner is its author.
#[derive(Debug, Clone)]
pub struct TeacherComment {
    pub id: i32,
    pub author_id: i32,
    pub receiver_id: i32,
    pub body: String,
    pub published: i64,
}

impl View for TeacherComment {
    type V = CommentV;

    open spec fn view(&self) -> CommentV {
        CommentV {
            id: self.id,
            author_id: self.author_id,
            receiver_id: self.receiver_id,
            body: self.body@,
            published: self.published,
        }
    }
}

impl TeacherComment {
    /// A field-by-field copy. (A derived `Clone` carries no specification,
    /// so the copy is spelled out.)
    pub fn duplicate(&self) -> (r: TeacherComment)
        ensures
            r@ == self@,
    {
        TeacherComment {
            id: self.id,
            author_id: self.author_id,
            receiver_id: self.receiver_id,
            body: self.body.clone(),
            published: self.published,
        }
    }
}

/// A teacher comment as handed to the store.
#[derive(Debug, Clone)]
pub struct NewTeacherComment {
    pub author_id: i32,
    pub receiver_id: i32,
    pub body: String,
    pub published: Option<i64>,
}

/// A stored vote on a teacher comment, unique per (comment, voter).
#[derive(Debug, Clone, Copy)]
pub struct TeacherCommentVote {
    pub id: i32,
    pub comment_id: i32,
    pub student_id: i32,
    pub upvote: bool,
}

impl View for TeacherCommentVote {
    type V = VoteV;

    open spec fn view(&self) -> VoteV {
        VoteV {
            id: self.id,
            comment_id: self.comment_id,
            student_id: self.student_id,
            upvote: self.upvote,
        }
    }
}

/// A vote on a teacher comment as handed to the store.
#[derive(Debug, Clone)]
pub struct NewTeacherCommentVote {
    pub comment_id: i32,
    pub student_id: i32,
    pub upvote: bool,
}

/// The redacted shape of a student comment: the author is hidden.
#[derive(Debug, Clone)]
pub struct LimitedViewStudentComment {
    pub id: i32,
    pub receiver_id: i32,
    pub body: String,
    pub published: i64,
}

/// The ghost value shared by both limited comment shapes.
pub ghost struct LimitedViewCommentV {
    pub id: i32,
    pub receiver_id: i32,
    pub body: Seq<char>,
    pub published: i64,
}

impl View for LimitedViewStudentComment {
    type V = LimitedViewCommentV;

    open spec fn view(&self) -> LimitedViewCommentV {
        LimitedViewCommentV {
            id: self.id,
            receiver_id: self.receiver_id,
            body: self.body@,
            published: self.published,
        }
    }
}

/// The redacted shape of a teacher comment: the author is hidden.
#[derive(Debug, Clone)]
pub struct LimitedViewTeacherComment {
    pub id: i32,
    pub receiver_id: i32,
    pub body: String,
    pub published: i64,
}

impl View for LimitedViewTeacherComment {
    type V = LimitedViewCommentV;

    open spec fn view(&self) -> LimitedViewCommentV {
        LimitedViewCommentV {
            id: self.id,
            receiver_id: self.receiver_id,
            body: self.body@,
            published: self.published,
        }
    }
}

/// What a read of a student comment returns.
#[derive(Debug, Clone)]
pub enum StudentCommentView {
    Limited(LimitedViewStudentComment),
    Full(StudentComment),
}

/// The ghost value shared by both comment view families.
pub ghost enum CommentViewV {
    Limited(LimitedViewCommentV),
    Full(CommentV),
}

impl View for StudentCommentView {
    type V = CommentViewV;

    open spec fn view(&self) -> CommentViewV {
        match self {
            StudentCommentView::Limited(c) => CommentViewV::Limited(c@),
            StudentCommentView::Full(c) => CommentViewV::Full(c@),
        }
    }
}

/// What a read of a teacher comment returns.
#[derive(Debug, Clone)]
pub enum TeacherCommentView {
    Limited(LimitedViewTeacherComment),
    Full(TeacherComment),
}

impl View for TeacherCommentView {
    type V = CommentViewV;

    open spec fn view(&self) -> CommentViewV {
        match self {
            TeacherCommentView::Limited(c) => CommentViewV::Limited(c@),
            TeacherCommentView::Full(c) => CommentViewV::Full(c@),
        }
    }
}

} // verus!
