//! The in-memory store backing the endpoints.
//!
//! Six tables mirror the relational schema: students, teachers, the two
//! comment families and their vote rows. Each table keeps sequentially
//! assigned ids, unique within the table, and each vote table keeps at most
//! one row per (comment, voter) pair — the uniqueness constraint that makes
//! vote casting an upsert. Every operation states exactly how the new store
//! relates to the old one, over the ghost view [`StoreV`].

use vstd::prelude::*;

use crate::error::{BabibappError, ErrorKind};
use crate::models::comment::{
    CommentV, NewStudentComment, NewTeacherComment, StudentComment, StudentCommentVote,
    TeacherComment, TeacherCommentVote, VoteV,
};
use crate::models::student::{NewStudent, Student, StudentV};
use crate::models::teacher::{NewTeacher, Teacher, TeacherV};

verus! {

/// The largest row count a table may reach: every row carries a distinct
/// positive `i32` id, so more rows than `i32::MAX` can never exist.
pub const MAX_ROWS: usize = 0x7fff_ffff;

/// The store: one growable table per entity family, and the next id each
/// table will assign.
pub struct Store {
    pub students: Vec<Student>,
    pub teachers: Vec<Teacher>,
    pub student_comments: Vec<StudentComment>,
    pub student_comment_votes: Vec<StudentCommentVote>,
    pub teacher_comments: Vec<TeacherComment>,
    pub teacher_comment_votes: Vec<TeacherCommentVote>,
    pub next_student_id: i32,
    pub next_teacher_id: i32,
    pub next_student_comment_id: i32,
    pub next_student_comment_vote_id: i32,
    pub next_teacher_comment_id: i32,
    pub next_teacher_comment_vote_id: i32,
}

/// The ghost value of a [`Store`].
pub ghost struct StoreV {
    pub students: Seq<StudentV>,
    pub teachers: Seq<TeacherV>,
    pub student_comments: Seq<CommentV>,
    pub student_comment_votes: Seq<VoteV>,
    pub teacher_comments: Seq<CommentV>,
    pub teacher_comment_votes: Seq<VoteV>,
    pub next_student_id: i32,
    pub next_teacher_id: i32,
    pub next_student_comment_id: i32,
    pub next_student_comment_vote_id: i32,
    pub next_teacher_comment_id: i32,
    pub next_teacher_comment_vote_id: i32,
}

impl View for Store {
    type V = StoreV;

    open spec fn view(&self) -> StoreV {
        StoreV {
            students: self.students@.map_values(|s: Student| s@),
            teachers: self.teachers@.map_values(|t: Teacher| t@),
            student_comments: self.student_comments@.map_values(|c: StudentComment| c@),
            student_comment_votes: self.student_comment_votes@.map_values(
                |v: StudentCommentVote| v@,
            ),
            teacher_comments: self.teacher_comments@.map_values(|c: TeacherComment| c@),
            teacher_comment_votes: self.teacher_comment_votes@.map_values(
                |v: TeacherCommentVote| v@,
            ),
            next_student_id: self.next_student_id,
            next_teacher_id: self.next_teacher_id,
            next_student_comment_id: self.next_student_comment_id,
            next_student_comment_vote_id: self.next_student_comment_vote_id,
            next_teacher_comment_id: self.next_teacher_comment_id,
            next_teacher_comment_vote_id: self.next_teacher_comment_vote_id,
        }
    }
}

// ---------------------------------------------------------------------------
// Well-formedness
// ---------------------------------------------------------------------------

/// The student table invariant: bounded, ids positive, below the next id,
/// and unique.
pub open spec fn wf_students(s: Seq<StudentV>, next_id: i32) -> bool {
    &&& s.len() <= MAX_ROWS
    &&& 1 <= next_id
    &&& forall|i: int| 0 <= i < s.len() ==> 1 <= (#[trigger] s[i]).id < next_id
    &&& forall|i: int, j: int| 0 <= i < j < s.len() ==> (#[trigger] s[i]).id != (#[trigger] s[j]).id
}

/// The teacher table invariant.
pub open spec fn wf_teachers(s: Seq<TeacherV>, next_id: i32) -> bool {
    &&& s.len() <= MAX_ROWS
    &&& 1 <= next_id
    &&& forall|i: int| 0 <= i < s.len() ==> 1 <= (#[trigger] s[i]).id < next_id
    &&& forall|i: int, j: int| 0 <= i < j < s.len() ==> (#[trigger] s[i]).id != (#[trigger] s[j]).id
}

/// The comment table invariant, shared by both comment families.
pub open spec fn wf_comments(s: Seq<CommentV>, next_id: i32) -> bool {
    &&& s.len() <= MAX_ROWS
    &&& 1 <= next_id
    &&& forall|i: int| 0 <= i < s.len() ==> 1 <= (#[trigger] s[i]).id < next_id
    &&& forall|i: int, j: int| 0 <= i < j < s.len() ==> (#[trigger] s[i]).id != (#[trigger] s[j]).id
}

/// The vote table invariant, shared by both vote families: ids as in every
/// table, and at most one row per (comment, voter) pair.
pub open spec fn wf_votes(s: Seq<VoteV>, next_id: i32) -> bool {
    &&& s.len() <= MAX_ROWS
    &&& 1 <= next_id
    &&& forall|i: int| 0 <= i < s.len() ==> 1 <= (#[trigger] s[i]).id < next_id
    &&& forall|i: int, j: int| 0 <= i < j < s.len() ==> (#[trigger] s[i]).id != (#[trigger] s[j]).id
    &&& forall|i: int, j: int|
        0 <= i < j < s.len() ==> !((#[trigger] s[i]).comment_id == (#[trigger] s[j]).comment_id
            && s[i].student_id == s[j].student_id)
}

impl Store {
    /// The store invariant: every table is well-formed.
    pub open spec fn wf(&self) -> bool {
        &&& wf_students(self@.students, self@.next_student_id)
        &&& wf_teachers(self@.teachers, self@.next_teacher_id)
        &&& wf_comments(self@.student_comments, self@.next_student_comment_id)
        &&& wf_votes(self@.student_comment_votes, self@.next_student_comment_vote_id)
        &&& wf_comments(self@.teacher_comments, self@.next_teacher_comment_id)
        &&& wf_votes(self@.teacher_comment_votes, self@.next_teacher_comment_vote_id)
    }

    /// An empty store.
    pub fn new() -> (r: Store)
        ensures
            r.wf(),
            r@.students == Seq::<StudentV>::empty(),
            r@.teachers == Seq::<TeacherV>::empty(),
            r@.student_comments == Seq::<CommentV>::empty(),
            r@.student_comment_votes == Seq::<VoteV>::empty(),
            r@.teacher_comments == Seq::<CommentV>::empty(),
            r@.teacher_comment_votes == Seq::<VoteV>::empty(),
    {
        let store = Store {
            students: Vec::new(),
            teachers: Vec::new(),
            student_comments: Vec::new(),
            student_comment_votes: Vec::new(),
            teacher_comments: Vec::new(),
            teacher_comment_votes: Vec::new(),
            next_student_id: 1,
            next_teacher_id: 1,
            next_student_comment_id: 1,
            next_student_comment_vote_id: 1,
            next_teacher_comment_id: 1,
            next_teacher_comment_vote_id: 1,
        };
        proof {
            assert(store@.students =~= Seq::<StudentV>::empty());
            assert(store@.teachers =~= Seq::<TeacherV>::empty());
            assert(store@.student_comments =~= Seq::<CommentV>::empty());
            assert(store@.student_comment_votes =~= Seq::<VoteV>::empty());
            assert(store@.teacher_comments =~= Seq::<CommentV>::empty());
            assert(store@.teacher_comment_votes =~= Seq::<VoteV>::empty());
        }
        store
    }
}

// ---------------------------------------------------------------------------
// Lookups over ghost tables
// ---------------------------------------------------------------------------

/// Whether the student table holds a row with this id.
pub open spec fn has_student(s: Seq<StudentV>, id: i32) -> bool {
    exists|i: int| 0 <= i < s.len() && (#[trigger] s[i]).id == id
}

/// The index of the row with this id (unique in a well-formed table).
pub open spec fn student_index(s: Seq<StudentV>, id: i32) -> int {
    choose|i: int| 0 <= i < s.len() && (#[trigger] s[i]).id == id
}

/// The row with this id, if any.
pub open spec fn find_student(s: Seq<StudentV>, id: i32) -> Option<StudentV> {
    if has_student(s, id) {
        Some(s[student_index(s, id)])
    } else {
        None
    }
}

/// Whether the teacher table holds a row with this id.
pub open spec fn has_teacher(s: Seq<TeacherV>, id: i32) -> bool {
    exists|i: int| 0 <= i < s.len() && (#[trigger] s[i]).id == id
}

/// The index of the teacher row with this id.
pub open spec fn teacher_index(s: Seq<TeacherV>, id: i32) -> int {
    choose|i: int| 0 <= i < s.len() && (#[trigger] s[i]).id == id
}

/// The teacher row with this id, if any.
pub open spec fn find_teacher(s: Seq<TeacherV>, id: i32) -> Option<TeacherV> {
    if has_teacher(s, id) {
        Some(s[teacher_index(s, id)])
    } else {
        None
    }
}

/// Whether a comment table holds a row with this id.
pub open spec fn has_comment(s: Seq<CommentV>, id: i32) -> bool {
    exists|i: int| 0 <= i < s.len() && (#[trigger] s[i]).id == id
}

/// The index of the comment row with this id.
pub open spec fn comment_index(s: Seq<CommentV>, id: i32) -> int {
    choose|i: int| 0 <= i < s.len() && (#[trigger] s[i]).id == id
}

/// The comment row with this id, if any.
pub open spec fn find_comment(s: Seq<CommentV>, id: i32) -> Option<CommentV> {
    if has_comment(s, id) {
        Some(s[comment_index(s, id)])
    } else {
        None
    }
}

/// Whether a vote table holds a row for this (comment, voter) pair.
pub open spec fn has_vote(s: Seq<VoteV>, comment_id: i32, student_id: i32) -> bool {
    exists|i: int|
        0 <= i < s.len() && (#[trigger] s[i]).comment_id == comment_id && s[i].student_id
            == student_id
}

/// The index of the vote row for this (comment, voter) pair.
pub open spec fn vote_index(s: Seq<VoteV>, comment_id: i32, student_id: i32) -> int {
    choose|i: int|
        0 <= i < s.len() && (#[trigger] s[i]).comment_id == comment_id && s[i].student_id
            == student_id
}

/// The vote row for this (comment, voter) pair, if any.
pub open spec fn find_vote(s: Seq<VoteV>, comment_id: i32, student_id: i32) -> Option<VoteV> {
    if has_vote(s, comment_id, student_id) {
        Some(s[vote_index(s, comment_id, student_id)])
    } else {
        None
    }
}

/// The first student row carrying this email, if any; emails are not
/// constrained to be unique, so the earliest row wins, as in the original
/// relational query.
pub open spec fn find_student_by_email(s: Seq<StudentV>, email: Seq<char>) -> Option<StudentV>
    decreases s.len(),
{
    if s.len() == 0 {
        None
    } else if s[0].email == email {
        Some(s[0])
    } else {
        find_student_by_email(s.drop_first(), email)
    }
}

/// In a well-formed student table, the row at any index is the one its id
/// finds.
pub proof fn lemma_student_index_unique(s: Seq<StudentV>, next_id: i32, i: int)
    requires
        wf_students(s, next_id),
        0 <= i < s.len(),
    ensures
        has_student(s, s[i].id),
        student_index(s, s[i].id) == i,
{
    assert(has_student(s, s[i].id));
    let j = student_index(s, s[i].id);
    if j < i {
        assert(s[j].id != s[i].id);
    } else if i < j {
        assert(s[i].id != s[j].id);
    }
}

/// In a well-formed teacher table, the row at any index is the one its id
/// finds.
pub proof fn lemma_teacher_index_unique(s: Seq<TeacherV>, next_id: i32, i: int)
    requires
        wf_teachers(s, next_id),
        0 <= i < s.len(),
    ensures
        has_teacher(s, s[i].id),
        teacher_index(s, s[i].id) == i,
{
    assert(has_teacher(s, s[i].id));
    let j = teacher_index(s, s[i].id);
    if j < i {
        assert(s[j].id != s[i].id);
    } else if i < j {
        assert(s[i].id != s[j].id);
    }
}

/// In a well-formed comment table, the row at any index is the one its id
/// finds.
pub proof fn lemma_comment_index_unique(s: Seq<CommentV>, next_id: i32, i: int)
    requires
        wf_comments(s, next_id),
        0 <= i < s.len(),
    ensures
        has_comment(s, s[i].id),
        comment_index(s, s[i].id) == i,
{
    assert(has_comment(s, s[i].id));
    let j = comment_index(s, s[i].id);
    if j < i {
        assert(s[j].id != s[i].id);
    } else if i < j {
        assert(s[i].id != s[j].id);
    }
}

/// In a well-formed vote table, the row at any index is the one its
/// (comment, voter) pair finds.
pub proof fn lemma_vote_index_unique(s: Seq<VoteV>, next_id: i32, i: int)
    requires
        wf_votes(s, next_id),
        0 <= i < s.len(),
    ensures
        has_vote(s, s[i].comment_id, s[i].student_id),
        vote_index(s, s[i].comment_id, s[i].student_id) == i,
{
    assert(has_vote(s, s[i].comment_id, s[i].student_id));
    let j = vote_index(s, s[i].comment_id, s[i].student_id);
    if j < i {
        assert(!(s[j].comment_id == s[i].comment_id && s[j].student_id == s[i].student_id));
    } else if i < j {
        assert(!(s[i].comment_id == s[j].comment_id && s[i].student_id == s[j].student_id));
    }
}

// ---------------------------------------------------------------------------
// Spec transitions: students
// ---------------------------------------------------------------------------

/// The admin flag a registration payload asks for; absent means a regular
/// account.
pub open spec fn spec_admin_flag(admin: Option<bool>) -> bool {
    match admin {
        Some(b) => b,
        None => false,
    }
}

/// A student row with a new email.
pub open spec fn student_with_email(sv: StudentV, email: Seq<char>) -> StudentV {
    StudentV {
        id: sv.id,
        email: email,
        first_name: sv.first_name,
        last_name: sv.last_name,
        password_hash: sv.password_hash,
        admin: sv.admin,
    }
}

/// A student row with a new password hash.
pub open spec fn student_with_password(sv: StudentV, password_hash: Seq<char>) -> StudentV {
    StudentV {
        id: sv.id,
        email: sv.email,
        first_name: sv.first_name,
        last_name: sv.last_name,
        password_hash: password_hash,
        admin: sv.admin,
    }
}

/// A student row with a new name.
pub open spec fn student_with_name(sv: StudentV, first: Seq<char>, last: Seq<char>) -> StudentV {
    StudentV {
        id: sv.id,
        email: sv.email,
        first_name: first,
        last_name: last,
        password_hash: sv.password_hash,
        admin: sv.admin,
    }
}

/// A student row with the admin flag set.
pub open spec fn student_as_admin(sv: StudentV) -> StudentV {
    StudentV {
        id: sv.id,
        email: sv.email,
        first_name: sv.first_name,
        last_name: sv.last_name,
        password_hash: sv.password_hash,
        admin: true,
    }
}

/// A student row with every field but the id replaced.
pub open spec fn student_with_all(
    sv: StudentV,
    email: Seq<char>,
    first: Seq<char>,
    last: Seq<char>,
    password_hash: Seq<char>,
    admin: bool,
) -> StudentV {
    StudentV {
        id: sv.id,
        email: email,
        first_name: first,
        last_name: last,
        password_hash: password_hash,
        admin: admin,
    }
}

/// The student table after replacing the row with the given id by `f` of
/// it; without such a row the table is unchanged.
pub open spec fn spec_update_student(
    s: Seq<StudentV>,
    id: i32,
    f: spec_fn(StudentV) -> StudentV,
) -> Seq<StudentV> {
    if has_student(s, id) {
        s.update(student_index(s, id), f(s[student_index(s, id)]))
    } else {
        s
    }
}

/// The student table after deleting the row with the given id, if any.
pub open spec fn spec_delete_student(s: Seq<StudentV>, id: i32) -> Seq<StudentV> {
    if has_student(s, id) {
        s.remove(student_index(s, id))
    } else {
        s
    }
}

/// Updating the row with one id — by any id-preserving change — keeps the
/// table well-formed, makes a lookup of that id find the changed row, and
/// leaves every other lookup as it was.
pub proof fn lemma_update_student_finds(
    s: Seq<StudentV>,
    next_id: i32,
    id: i32,
    f: spec_fn(StudentV) -> StudentV,
)
    requires
        wf_students(s, next_id),
        forall|sv: StudentV| (#[trigger] f(sv)).id == sv.id,
    ensures
        wf_students(spec_update_student(s, id, f), next_id),
        find_student(spec_update_student(s, id, f), id) == match find_student(s, id) {
            Some(sv) => Some(f(sv)),
            None => None::<StudentV>,
        },
        forall|id2: i32|
            id2 != id ==> #[trigger] find_student(spec_update_student(s, id, f), id2)
                == find_student(s, id2),
{
    let s2 = spec_update_student(s, id, f);
    if has_student(s, id) {
        let k = student_index(s, id);
        assert forall|a: int, b: int| 0 <= a < b < s2.len() implies (#[trigger] s2[a]).id != (
        #[trigger] s2[b]).id by {
            assert(s[a].id != s[b].id);
        }
        assert(s2[k].id == id);
        lemma_student_index_unique(s2, next_id, k);
        assert forall|id2: i32| id2 != id implies #[trigger] find_student(s2, id2)
            == find_student(s, id2) by {
            if has_student(s, id2) {
                let k2 = student_index(s, id2);
                assert(s2[k2] == s[k2]);
                lemma_student_index_unique(s2, next_id, k2);
            } else {
                assert(forall|j: int| 0 <= j < s2.len() ==> (#[trigger] s2[j]).id == s[j].id);
            }
        }
    }
}

// ---------------------------------------------------------------------------
// Student table operations
// ---------------------------------------------------------------------------

impl Store {
    /// The index of the student row with this id.
    fn find_student_idx(&self, student_id: i32) -> (r: Option<usize>)
        ensures
            match r {
                Some(i) => 0 <= i < self@.students.len() && self@.students[i as int].id
                    == student_id,
                None => !has_student(self@.students, student_id),
            },
    {
        let n = self.students.len();
        let mut i: usize = 0;
        while i < n
            invariant
                n == self@.students.len(),
                0 <= i <= n,
                forall|j: int| 0 <= j < i ==> (#[trigger] self@.students[j]).id != student_id,
            decreases n - i,
        {
            if self.students[i].id == student_id {
                return Some(i);
            }
            i += 1;
        }
        None
    }

    /// The student with this id, if any.
    pub fn get_student(&self, student_id: i32) -> (r: Option<Student>)
        requires
            self.wf(),
        ensures
            match r {
                Some(s) => find_student(self@.students, student_id) == Some(s@),
                None => find_student(self@.students, student_id) is None,
            },
    {
        match self.find_student_idx(student_id) {
            Some(i) => {
                proof {
                    lemma_student_index_unique(self@.students, self@.next_student_id, i as int);
                }
                Some(self.students[i].duplicate())
            },
            None => None,
        }
    }

    /// The first student with this email, if any.
    pub fn get_student_by_email(&self, email: &String) -> (r: Option<Student>)
        requires
            self.wf(),
        ensures
            match r {
                Some(s) => find_student_by_email(self@.students, email@) == Some(s@),
                None => find_student_by_email(self@.students, email@) is None,
            },
    {
        let n = self.students.len();
        let mut i: usize = 0;
        proof {
            assert(self@.students.skip(0) =~= self@.students);
        }
        while i < n
            invariant
                n == self@.students.len(),
                0 <= i <= n,
                find_student_by_email(self@.students, email@) == find_student_by_email(
                    self@.students.skip(i as int),
                    email@,
                ),
            decreases n - i,
        {
            proof {
                assert(self@.students.skip(i as int)[0] == self@.students[i as int]);
                assert(self@.students.skip(i as int).drop_first() =~= self@.students.skip(
                    i as int + 1,
                ));
            }
            if self.students[i].email == *email {
                return Some(self.students[i].duplicate());
            }
            i += 1;
        }
        proof {
            assert(self@.students.skip(n as int).len() == 0);
        }
        None
    }

    /// Insert a new student, assigning the next id. Fails only when the id
    /// space of the table is exhausted.
    pub fn insert_student(&mut self, new: NewStudent) -> (r: Result<Student, BabibappError>)
        requires
            old(self).wf(),
        ensures
            final(self).wf(),
            r is Err <==> (old(self)@.next_student_id == i32::MAX || old(
                self,
            )@.students.len() >= MAX_ROWS),
            match r {
                Ok(s) => {
                    &&& s@ == (StudentV {
                        id: old(self)@.next_student_id,
                        email: new.email@,
                        first_name: new.first_name@,
                        last_name: new.last_name@,
                        password_hash: new.password_hash@,
                        admin: spec_admin_flag(new.admin),
                    })
                    &&& final(self)@ == (StoreV {
                        students: old(self)@.students.push(s@),
                        next_student_id: (old(self)@.next_student_id + 1) as i32,
                        ..old(self)@
                    })
                },
                Err(e) => e.kind == ErrorKind::Internal && final(self)@ == old(self)@,
            },
    {
        if self.next_student_id == i32::MAX || self.students.len() >= MAX_ROWS {
            return Err(BabibappError::with_msg(ErrorKind::Internal, "student table full"));
        }
        let id = self.next_student_id;
        let admin = match new.admin {
            Some(b) => b,
            None => false,
        };
        let student = Student {
            id,
            email: new.email,
            first_name: new.first_name,
            last_name: new.last_name,
            password_hash: new.password_hash,
            admin,
        };
        let result = student.duplicate();
        self.students.push(student);
        self.next_student_id = id + 1;
        proof {
            assert(self@.students =~= old(self)@.students.push(result@));
            assert forall|i: int, j: int| 0 <= i < j < self@.students.len() implies (
            #[trigger] self@.students[i]).id != (#[trigger] self@.students[j]).id by {
                if j == self@.students.len() - 1 {
                    assert(self@.students[i] == old(self)@.students[i]);
                }
            }
        }
        Ok(result)
    }

    /// Replace the student row at a known index; the id must be kept.
    fn set_student_row(&mut self, i: usize, updated: Student)
        requires
            old(self).wf(),
            i < old(self)@.students.len(),
            updated@.id == old(self)@.students[i as int].id,
        ensures
            final(self).wf(),
            final(self)@ == (StoreV {
                students: old(self)@.students.update(i as int, updated@),
                ..old(self)@
            }),
    {
        self.students[i] = updated;
        proof {
            assert(self@.students =~= old(self)@.students.update(i as int, updated@));
            assert forall|a: int, b: int| 0 <= a < b < self@.students.len() implies (
            #[trigger] self@.students[a]).id != (#[trigger] self@.students[b]).id by {
                assert(old(self)@.students[a].id != old(self)@.students[b].id);
            }
        }
    }

    /// Set the email of the student with this id, returning the updated row.
    pub fn reset_student_email(&mut self, student_id: i32, email: &String) -> (r: Option<Student>)
        requires
            old(self).wf(),
        ensures
            final(self).wf(),
            final(self)@ == (StoreV {
                students: spec_update_student(
                    old(self)@.students,
                    student_id,
                    |sv: StudentV| student_with_email(sv, email@),
                ),
                ..old(self)@
            }),
            match r {
                Some(s) => find_student(old(self)@.students, student_id) is Some && Some(s@)
                    == find_student(final(self)@.students, student_id),
                None => !has_student(old(self)@.students, student_id),
            },
    {
        match self.find_student_idx(student_id) {
            None => None,
            Some(i) => {
                proof {
                    lemma_student_index_unique(self@.students, self@.next_student_id, i as int);
                }
                let row = &self.students[i];
                let updated = Student {
                    id: row.id,
                    email: email.clone(),
                    first_name: row.first_name.clone(),
                    last_name: row.last_name.clone(),
                    password_hash: row.password_hash.clone(),
                    admin: row.admin,
                };
                let out = updated.duplicate();
                self.set_student_row(i, updated);
                proof {
                    lemma_student_index_unique(self@.students, self@.next_student_id, i as int);
                }
                Some(out)
            },
        }
    }

    /// Set the password hash of the student with this id.
    pub fn reset_student_password(&mut self, student_id: i32, password_hash: &String) -> (r:
        Option<Student>)
        requires
            old(self).wf(),
        ensures
            final(self).wf(),
            final(self)@ == (StoreV {
                students: spec_update_student(
                    old(self)@.students,
                    student_id,
                    |sv: StudentV| student_with_password(sv, password_hash@),
                ),
                ..old(self)@
            }),
            match r {
                Some(s) => find_student(old(self)@.students, student_id) is Some && Some(s@)
                    == find_student(final(self)@.students, student_id),
                None => !has_student(old(self)@.students, student_id),
            },
    {
        match self.find_student_idx(student_id) {
            None => None,
            Some(i) => {
                proof {
                    lemma_student_index_unique(self@.students, self@.next_student_id, i as int);
                }
                let row = &self.students[i];
                let updated = Student {
                    id: row.id,
                    email: row.email.clone(),
                    first_name: row.first_name.clone(),
                    last_name: row.last_name.clone(),
                    password_hash: password_hash.clone(),
                    admin: row.admin,
                };
                let out = updated.duplicate();
                self.set_student_row(i, updated);
                proof {
                    lemma_student_index_unique(self@.students, self@.next_student_id, i as int);
                }
                Some(out)
            },
        }
    }

    /// Set the name of the student with this id.
    pub fn reset_student_name(&mut self, student_id: i32, first_name: &String, last_name: &String)
        -> (r: Option<Student>)
        requires
            old(self).wf(),
        ensures
            final(self).wf(),
            final(self)@ == (StoreV {
                students: spec_update_student(
                    old(self)@.students,
                    student_id,
                    |sv: StudentV| student_with_name(sv, first_name@, last_name@),
                ),
                ..old(self)@
            }),
            match r {
                Some(s) => find_student(old(self)@.students, student_id) is Some && Some(s@)
                    == find_student(final(self)@.students, student_id),
                None => !has_student(old(self)@.students, student_id),
            },
    {
        match self.find_student_idx(student_id) {
            None => None,
            Some(i) => {
                proof {
                    lemma_student_index_unique(self@.students, self@.next_student_id, i as int);
                }
                let row = &self.students[i];
                let updated = Student {
                    id: row.id,
                    email: row.email.clone(),
                    first_name: first_name.clone(),
                    last_name: last_name.clone(),
                    password_hash: row.password_hash.clone(),
                    admin: row.admin,
                };
                let out = updated.duplicate();
                self.set_student_row(i, updated);
                proof {
                    lemma_student_index_unique(self@.students, self@.next_student_id, i as int);
                }
                Some(out)
            },
        }
    }

    /// Grant the student with this id admin privileges.
    pub fn make_student_admin(&mut self, student_id: i32) -> (r: Option<Student>)
        requires
            old(self).wf(),
        ensures
            final(self).wf(),
            final(self)@ == (StoreV {
                students: spec_update_student(
                    old(self)@.students,
                    student_id,
                    |sv: StudentV| student_as_admin(sv),
                ),
                ..old(self)@
            }),
            match r {
                Some(s) => find_student(old(self)@.students, student_id) is Some && Some(s@)
                    == find_student(final(self)@.students, student_id),
                None => !has_student(old(self)@.students, student_id),
            },
    {
        match self.find_student_idx(student_id) {
            None => None,
            Some(i) => {
                proof {
                    lemma_student_index_unique(self@.students, self@.next_student_id, i as int);
                }
                let row = &self.students[i];
                let updated = Student {
                    id: row.id,
                    email: row.email.clone(),
                    first_name: row.first_name.clone(),
                    last_name: row.last_name.clone(),
                    password_hash: row.password_hash.clone(),
                    admin: true,
                };
                let out = updated.duplicate();
                self.set_student_row(i, updated);
                proof {
                    lemma_student_index_unique(self@.students, self@.next_student_id, i as int);
                }
                Some(out)
            },
        }
    }

    /// Replace every field but the id of the student with this id.
    pub fn full_reset_student(
        &mut self,
        student_id: i32,
        email: &String,
        first_name: &String,
        last_name: &String,
        password_hash: &String,
        admin: bool,
    ) -> (r: Option<Student>)
        requires
            old(self).wf(),
        ensures
            final(self).wf(),
            final(self)@ == (StoreV {
                students: spec_update_student(
                    old(self)@.students,
                    student_id,
                    |sv: StudentV|
                        student_with_all(
                            sv,
                            email@,
                            first_name@,
                            last_name@,
                            password_hash@,
                            admin,
                        ),
                ),
                ..old(self)@
            }),
            match r {
                Some(s) => find_student(old(self)@.students, student_id) is Some && Some(s@)
                    == find_student(final(self)@.students, student_id),
                None => !has_student(old(self)@.students, student_id),
            },
    {
        match self.find_student_idx(student_id) {
            None => None,
            Some(i) => {
                proof {
                    lemma_student_index_unique(self@.students, self@.next_student_id, i as int);
                }
                let row = &self.students[i];
                let updated = Student {
                    id: row.id,
                    email: email.clone(),
                    first_name: first_name.clone(),
                    last_name: last_name.clone(),
                    password_hash: password_hash.clone(),
                    admin,
                };
                let out = updated.duplicate();
                self.set_student_row(i, updated);
                proof {
                    lemma_student_index_unique(self@.students, self@.next_student_id, i as int);
                }
                Some(out)
            },
        }
    }

    /// Delete the student with this id, returning the deleted row.
    pub fn delete_student(&mut self, student_id: i32) -> (r: Option<Student>)
        requires
            old(self).wf(),
        ensures
            final(self).wf(),
            final(self)@ == (StoreV {
                students: spec_delete_student(old(self)@.students, student_id),
                ..old(self)@
            }),
            match r {
                Some(s) => find_student(old(self)@.students, student_id) == Some(s@),
                None => !has_student(old(self)@.students, student_id),
            },
    {
        match self.find_student_idx(student_id) {
            None => None,
            Some(i) => {
                proof {
                    lemma_student_index_unique(self@.students, self@.next_student_id, i as int);
                }
                let out = self.students.remove(i);
                proof {
                    assert(self@.students =~= old(self)@.students.remove(i as int));
                    assert forall|a: int, b: int| 0 <= a < b < self@.students.len() implies (
                    #[trigger] self@.students[a]).id != (#[trigger] self@.students[b]).id by {
                        let a0 = if a < i as int {
                            a
                        } else {
                            a + 1
                        };
                        let b0 = if b < i as int {
                            b
                        } else {
                            b + 1
                        };
                        assert(self@.students[a] == old(self)@.students[a0]);
                        assert(self@.students[b] == old(self)@.students[b0]);
                    }
                }
                Some(out)
            },
        }
    }
}

// ---------------------------------------------------------------------------
// Spec transitions: teachers and comments
// ---------------------------------------------------------------------------

/// A teacher row with a new name and prefix.
pub open spec fn teacher_with(tv: TeacherV, name: Seq<char>, prefix: Seq<char>) -> TeacherV {
    TeacherV { id: tv.id, name: name, prefix: prefix }
}

/// The teacher table after replacing the name and prefix of the row with
/// the given id; without such a row the table is unchanged.
pub open spec fn spec_update_teacher(
    s: Seq<TeacherV>,
    id: i32,
    name: Seq<char>,
    prefix: Seq<char>,
) -> Seq<TeacherV> {
    if has_teacher(s, id) {
        s.update(teacher_index(s, id), teacher_with(s[teacher_index(s, id)], name, prefix))
    } else {
        s
    }
}

/// The teacher table after deleting the row with the given id, if any.
pub open spec fn spec_delete_teacher(s: Seq<TeacherV>, id: i32) -> Seq<TeacherV> {
    if has_teacher(s, id) {
        s.remove(teacher_index(s, id))
    } else {
        s
    }
}

/// A comment table after deleting the row with the given id, if any.
pub open spec fn spec_delete_comment(s: Seq<CommentV>, id: i32) -> Seq<CommentV> {
    if has_comment(s, id) {
        s.remove(comment_index(s, id))
    } else {
        s
    }
}

/// The instant a new comment is published: the payload's, or `now`.
pub open spec fn spec_published_at(published: Option<i64>, now: i64) -> i64 {
    match published {
        Some(t) => t,
        None => now,
    }
}

/// Updating the name and prefix of one teacher keeps the table well-formed,
/// makes a lookup of that id find the changed row, and leaves every other
/// lookup as it was.
pub proof fn lemma_update_teacher_finds(
    s: Seq<TeacherV>,
    next_id: i32,
    id: i32,
    name: Seq<char>,
    prefix: Seq<char>,
)
    requires
        wf_teachers(s, next_id),
    ensures
        wf_teachers(spec_update_teacher(s, id, name, prefix), next_id),
        find_teacher(spec_update_teacher(s, id, name, prefix), id) == match find_teacher(s, id) {
            Some(tv) => Some(teacher_with(tv, name, prefix)),
            None => None::<TeacherV>,
        },
        forall|id2: i32|
            id2 != id ==> #[trigger] find_teacher(spec_update_teacher(s, id, name, prefix), id2)
                == find_teacher(s, id2),
{
    let s2 = spec_update_teacher(s, id, name, prefix);
    if has_teacher(s, id) {
        let k = teacher_index(s, id);
        assert forall|a: int, b: int| 0 <= a < b < s2.len() implies (#[trigger] s2[a]).id != (
        #[trigger] s2[b]).id by {
            assert(s[a].id != s[b].id);
        }
        assert(s2[k].id == id);
        lemma_teacher_index_unique(s2, next_id, k);
        assert forall|id2: i32| id2 != id implies #[trigger] find_teacher(s2, id2)
            == find_teacher(s, id2) by {
            if has_teacher(s, id2) {
                let k2 = teacher_index(s, id2);
                assert(s2[k2] == s[k2]);
                lemma_teacher_index_unique(s2, next_id, k2);
            } else {
                assert(forall|j: int| 0 <= j < s2.len() ==> (#[trigger] s2[j]).id == s[j].id);
            }
        }
    }
}

// ---------------------------------------------------------------------------
// Teacher table operations
// ---------------------------------------------------------------------------

impl Store {
    /// The index of the teacher row with this id.
    fn find_teacher_idx(&self, teacher_id: i32) -> (r: Option<usize>)
        ensures
            match r {
                Some(i) => 0 <= i < self@.teachers.len() && self@.teachers[i as int].id
                    == teacher_id,
                None => !has_teacher(self@.teachers, teacher_id),
            },
    {
        let n = self.teachers.len();
        let mut i: usize = 0;
        while i < n
            invariant
                n == self@.teachers.len(),
                0 <= i <= n,
                forall|j: int| 0 <= j < i ==> (#[trigger] self@.teachers[j]).id != teacher_id,
            decreases n - i,
        {
            if self.teachers[i].id == teacher_id {
                return Some(i);
            }
            i += 1;
        }
        None
    }

    /// The teacher with this id, if any.
    pub fn get_teacher(&self, teacher_id: i32) -> (r: Option<Teacher>)
        requires
            self.wf(),
        ensures
            match r {
                Some(t) => find_teacher(self@.teachers, teacher_id) == Some(t@),
                None => find_teacher(self@.teachers, teacher_id) is None,
            },
    {
        match self.find_teacher_idx(teacher_id) {
            Some(i) => {
                proof {
                    lemma_teacher_index_unique(self@.teachers, self@.next_teacher_id, i as int);
                }
                Some(self.teachers[i].duplicate())
            },
            None => None,
        }
    }

    /// Insert a new teacher, assigning the next id.
    pub fn insert_teacher(&mut self, new: NewTeacher) -> (r: Result<Teacher, BabibappError>)
        requires
            old(self).wf(),
        ensures
            final(self).wf(),
            r is Err <==> (old(self)@.next_teacher_id == i32::MAX || old(
                self,
            )@.teachers.len() >= MAX_ROWS),
            match r {
                Ok(t) => {
                    &&& t@ == (TeacherV {
                        id: old(self)@.next_teacher_id,
                        name: new.name@,
                        prefix: new.prefix@,
                    })
                    &&& final(self)@ == (StoreV {
                        teachers: old(self)@.teachers.push(t@),
                        next_teacher_id: (old(self)@.next_teacher_id + 1) as i32,
                        ..old(self)@
                    })
                },
                Err(e) => e.kind == ErrorKind::Internal && final(self)@ == old(self)@,
            },
    {
        if self.next_teacher_id == i32::MAX || self.teachers.len() >= MAX_ROWS {
            return Err(BabibappError::with_msg(ErrorKind::Internal, "teacher table full"));
        }
        let id = self.next_teacher_id;
        let teacher = Teacher { id, name: new.name, prefix: new.prefix };
        let result = teacher.duplicate();
        self.teachers.push(teacher);
        self.next_teacher_id = id + 1;
        proof {
            assert(self@.teachers =~= old(self)@.teachers.push(result@));
            assert forall|i: int, j: int| 0 <= i < j < self@.teachers.len() implies (
            #[trigger] self@.teachers[i]).id != (#[trigger] self@.teachers[j]).id by {
                if j == self@.teachers.len() - 1 {
                    assert(self@.teachers[i] == old(self)@.teachers[i]);
                }
            }
        }
        Ok(result)
    }

    /// Set the name and prefix of the teacher with this id.
    pub fn reset_teacher(&mut self, teacher_id: i32, name: &String, prefix: &String) -> (r: Option<
        Teacher,
    >)
        requires
            old(self).wf(),
        ensures
            final(self).wf(),
            final(self)@ == (StoreV {
                teachers: spec_update_teacher(old(self)@.teachers, teacher_id, name@, prefix@),
                ..old(self)@
            }),
            match r {
                Some(t) => find_teacher(old(self)@.teachers, teacher_id) is Some && Some(t@)
                    == find_teacher(final(self)@.teachers, teacher_id),
                None => !has_teacher(old(self)@.teachers, teacher_id),
            },
    {
        match self.find_teacher_idx(teacher_id) {
            None => None,
            Some(i) => {
                proof {
                    lemma_teacher_index_unique(self@.teachers, self@.next_teacher_id, i as int);
                }
                let updated = Teacher {
                    id: self.teachers[i].id,
                    name: name.clone(),
                    prefix: prefix.clone(),
                };
                let out = updated.duplicate();
                self.teachers[i] = updated;
                proof {
                    assert(self@.teachers =~= old(self)@.teachers.update(i as int, out@));
                    assert forall|a: int, b: int| 0 <= a < b < self@.teachers.len() implies (
                    #[trigger] self@.teachers[a]).id != (#[trigger] self@.teachers[b]).id by {
                        assert(old(self)@.teachers[a].id != old(self)@.teachers[b].id);
                    }
                    lemma_teacher_index_unique(self@.teachers, self@.next_teacher_id, i as int);
                }
                Some(out)
            },
        }
    }

    /// Delete the teacher with this id, returning the deleted row.
    pub fn delete_teacher(&mut self, teacher_id: i32) -> (r: Option<Teacher>)
        requires
            old(self).wf(),
        ensures
            final(self).wf(),
            final(self)@ == (StoreV {
                teachers: spec_delete_teacher(old(self)@.teachers, teacher_id),
                ..old(self)@
            }),
            match r {
                Some(t) => find_teacher(old(self)@.teachers, teacher_id) == Some(t@),
                None => !has_teacher(old(self)@.teachers, teacher_id),
            },
    {
        match self.find_teacher_idx(teacher_id) {
            None => None,
            Some(i) => {
                proof {
                    lemma_teacher_index_unique(self@.teachers, self@.next_teacher_id, i as int);
                }
                let out = self.teachers.remove(i);
                proof {
                    assert(self@.teachers =~= old(self)@.teachers.remove(i as int));
                    assert forall|a: int, b: int| 0 <= a < b < self@.teachers.len() implies (
                    #[trigger] self@.teachers[a]).id != (#[trigger] self@.teachers[b]).id by {
                        let a0 = if a < i as int {
                            a
                        } else {
                            a + 1
                        };
                        let b0 = if b < i as int {
                            b
                        } else {
                            b + 1
                        };
                        assert(self@.teachers[a] == old(self)@.teachers[a0]);
                        assert(self@.teachers[b] == old(self)@.teachers[b0]);
                    }
                }
                Some(out)
            },
        }
    }
}

// ---------------------------------------------------------------------------
// Student comment table operations
// ---------------------------------------------------------------------------

impl Store {
    /// The index of the student comment row with this id.
    fn find_student_comment_idx(&self, comment_id: i32) -> (r: Option<usize>)
        ensures
            match r {
                Some(i) => 0 <= i < self@.student_comments.len()
                    && self@.student_comments[i as int].id == comment_id,
                None => !has_comment(self@.student_comments, comment_id),
            },
    {
        let n = self.student_comments.len();
        let mut i: usize = 0;
        while i < n
            invariant
                n == self@.student_comments.len(),
                0 <= i <= n,
                forall|j: int|
                    0 <= j < i ==> (#[trigger] self@.student_comments[j]).id != comment_id,
            decreases n - i,
        {
            if self.student_comments[i].id == comment_id {
                return Some(i);
            }
            i += 1;
        }
        None
    }

    /// The student comment with this id, if any.
    pub fn get_student_comment(&self, comment_id: i32) -> (r: Option<StudentComment>)
        requires
            self.wf(),
        ensures
            match r {
                Some(c) => find_comment(self@.student_comments, comment_id) == Some(c@),
                None => find_comment(self@.student_comments, comment_id) is None,
            },
    {
        match self.find_student_comment_idx(comment_id) {
            Some(i) => {
                proof {
                    lemma_comment_index_unique(
                        self@.student_comments,
                        self@.next_student_comment_id,
                        i as int,
                    );
                }
                Some(self.student_comments[i].duplicate())
            },
            None => None,
        }
    }

    /// Insert a new student comment, assigning the next id; a payload
    /// without a publication instant is published at `now`.
    pub fn insert_student_comment(&mut self, new: NewStudentComment, now: i64) -> (r: Result<
        StudentComment,
        BabibappError,
    >)
        requires
            old(self).wf(),
        ensures
            final(self).wf(),
            r is Err <==> (old(self)@.next_student_comment_id == i32::MAX || old(
                self,
            )@.student_comments.len() >= MAX_ROWS),
            match r {
                Ok(c) => {
                    &&& c@ == (CommentV {
                        id: old(self)@.next_student_comment_id,
                        author_id: new.author_id,
                        receiver_id: new.receiver_id,
                        body: new.body@,
                        published: spec_published_at(new.published, now),
                    })
                    &&& final(self)@ == (StoreV {
                        student_comments: old(self)@.student_comments.push(c@),
                        next_student_comment_id: (old(self)@.next_student_comment_id + 1) as i32,
                        ..old(self)@
                    })
                },
                Err(e) => e.kind == ErrorKind::Internal && final(self)@ == old(self)@,
            },
    {
        if self.next_student_comment_id == i32::MAX || self.student_comments.len() >= MAX_ROWS {
            return Err(BabibappError::with_msg(ErrorKind::Internal, "comment table full"));
        }
        let id = self.next_student_comment_id;
        let published = match new.published {
            Some(t) => t,
            None => now,
        };
        let comment = StudentComment {
            id,
            author_id: new.author_id,
            receiver_id: new.receiver_id,
            body: new.body,
            published,
        };
        let result = comment.duplicate();
        self.student_comments.push(comment);
        self.next_student_comment_id = id + 1;
        proof {
            assert(self@.student_comments =~= old(self)@.student_comments.push(result@));
            assert forall|i: int, j: int| 0 <= i < j < self@.student_comments.len() implies (
            #[trigger] self@.student_comments[i]).id != (#[trigger] self@.student_comments[j]).id
            by {
                if j == self@.student_comments.len() - 1 {
                    assert(self@.student_comments[i] == old(self)@.student_comments[i]);
                }
            }
        }
        Ok(result)
    }

    /// Delete the student comment with this id, returning the deleted row.
    pub fn delete_student_comment(&mut self, comment_id: i32) -> (r: Option<StudentComment>)
        requires
            old(self).wf(),
        ensures
            final(self).wf(),
            final(self)@ == (StoreV {
                student_comments: spec_delete_comment(old(self)@.student_comments, comment_id),
                ..old(self)@
            }),
            match r {
                Some(c) => find_comment(old(self)@.student_comments, comment_id) == Some(c@),
                None => !has_comment(old(self)@.student_comments, comment_id),
            },
    {
        match self.find_student_comment_idx(comment_id) {
            None => None,
            Some(i) => {
                proof {
                    lemma_comment_index_unique(
                        self@.student_comments,
                        self@.next_student_comment_id,
                        i as int,
                    );
                }
                let out = self.student_comments.remove(i);
                proof {
                    assert(self@.student_comments =~= old(self)@.student_comments.remove(i as int));
                    assert forall|a: int, b: int| 0 <= a < b < self@.student_comments.len()
                        implies (#[trigger] self@.student_comments[a]).id != (
                    #[trigger] self@.student_comments[b]).id by {
                        let a0 = if a < i as int {
                            a
                        } else {
                            a + 1
                        };
                        let b0 = if b < i as int {
                            b
                        } else {
                            b + 1
                        };
                        assert(self@.student_comments[a] == old(self)@.student_comments[a0]);
                        assert(self@.student_comments[b] == old(self)@.student_comments[b0]);
                    }
                }
                Some(out)
            },
        }
    }
}

// ---------------------------------------------------------------------------
// Spec transitions: votes
// ---------------------------------------------------------------------------

/// A vote row with its direction replaced.
pub open spec fn vote_with_direction(v: VoteV, upvote: bool) -> VoteV {
    VoteV { id: v.id, comment_id: v.comment_id, student_id: v.student_id, upvote: upvote }
}

/// A vote table after casting a vote: an existing row for the (comment,
/// voter) pair has its direction overwritten in place; otherwise a fresh
/// row with id `new_id` is appended. Never both — the upsert.
pub open spec fn spec_set_vote(
    s: Seq<VoteV>,
    new_id: i32,
    comment_id: i32,
    student_id: i32,
    upvote: bool,
) -> Seq<VoteV> {
    if has_vote(s, comment_id, student_id) {
        s.update(
            vote_index(s, comment_id, student_id),
            vote_with_direction(s[vote_index(s, comment_id, student_id)], upvote),
        )
    } else {
        s.push(
            VoteV { id: new_id, comment_id: comment_id, student_id: student_id, upvote: upvote },
        )
    }
}

/// The next vote id after casting a vote: unchanged by an in-place
/// overwrite, advanced by an insertion.
pub open spec fn spec_next_after_set(
    s: Seq<VoteV>,
    next_id: i32,
    comment_id: i32,
    student_id: i32,
) -> i32 {
    if has_vote(s, comment_id, student_id) {
        next_id
    } else {
        (next_id + 1) as i32
    }
}

/// A vote table after removing the row for the (comment, voter) pair, if
/// any.
pub open spec fn spec_unvote(s: Seq<VoteV>, comment_id: i32, student_id: i32) -> Seq<VoteV> {
    if has_vote(s, comment_id, student_id) {
        s.remove(vote_index(s, comment_id, student_id))
    } else {
        s
    }
}

/// How many rows of the table vote on this comment in this direction.
pub open spec fn count_votes(s: Seq<VoteV>, comment_id: i32, upvote: bool) -> int
    decreases s.len(),
{
    if s.len() == 0 {
        0
    } else {
        count_votes(s.drop_last(), comment_id, upvote) + if s.last().comment_id == comment_id
            && s.last().upvote == upvote {
            1int
        } else {
            0int
        }
    }
}

/// The net score of a comment: upvotes minus downvotes; rows of other
/// comments contribute nothing.
pub open spec fn spec_score(s: Seq<VoteV>, comment_id: i32) -> int {
    count_votes(s, comment_id, true) - count_votes(s, comment_id, false)
}

/// Casting a vote preserves the vote table invariant.
pub proof fn lemma_set_vote_preserves_wf(
    s: Seq<VoteV>,
    next_id: i32,
    comment_id: i32,
    student_id: i32,
    upvote: bool,
)
    requires
        wf_votes(s, next_id),
        has_vote(s, comment_id, student_id) || (next_id < i32::MAX && s.len() < MAX_ROWS),
    ensures
        wf_votes(
            spec_set_vote(s, next_id, comment_id, student_id, upvote),
            spec_next_after_set(s, next_id, comment_id, student_id),
        ),
{
    let s2 = spec_set_vote(s, next_id, comment_id, student_id, upvote);
    if has_vote(s, comment_id, student_id) {
        let k = vote_index(s, comment_id, student_id);
        assert forall|a: int, b: int| 0 <= a < b < s2.len() implies (#[trigger] s2[a]).id != (
        #[trigger] s2[b]).id && !(s2[a].comment_id == s2[b].comment_id && s2[a].student_id
            == s2[b].student_id) by {
            assert(s[a].id != s[b].id);
            assert(!(s[a].comment_id == s[b].comment_id && s[a].student_id == s[b].student_id));
        }
    } else {
        assert forall|a: int, b: int| 0 <= a < b < s2.len() implies (#[trigger] s2[a]).id != (
        #[trigger] s2[b]).id && !(s2[a].comment_id == s2[b].comment_id && s2[a].student_id
            == s2[b].student_id) by {
            if b == s2.len() - 1 {
                assert(s2[a] == s[a]);
                assert(1 <= s[a].id < next_id);
                assert(!(s[a].comment_id == comment_id && s[a].student_id == student_id));
            } else {
                assert(s2[a] == s[a]);
                assert(s2[b] == s[b]);
            }
        }
    }
}

/// Removing a vote preserves the vote table invariant.
pub proof fn lemma_unvote_preserves_wf(
    s: Seq<VoteV>,
    next_id: i32,
    comment_id: i32,
    student_id: i32,
)
    requires
        wf_votes(s, next_id),
    ensures
        wf_votes(spec_unvote(s, comment_id, student_id), next_id),
{
    if has_vote(s, comment_id, student_id) {
        let k = vote_index(s, comment_id, student_id);
        let s2 = s.remove(k);
        assert forall|a: int, b: int| 0 <= a < b < s2.len() implies (#[trigger] s2[a]).id != (
        #[trigger] s2[b]).id && !(s2[a].comment_id == s2[b].comment_id && s2[a].student_id
            == s2[b].student_id) by {
            let a0 = if a < k {
                a
            } else {
                a + 1
            };
            let b0 = if b < k {
                b
            } else {
                b + 1
            };
            assert(s2[a] == s[a0]);
            assert(s2[b] == s[b0]);
        }
    }
}

/// After a cast, the table holds a row for the pair, with the direction
/// just cast, and the table grew exactly when no row existed before.
pub proof fn lemma_set_vote_finds(
    s: Seq<VoteV>,
    next_id: i32,
    comment_id: i32,
    student_id: i32,
    upvote: bool,
)
    requires
        wf_votes(s, next_id),
        has_vote(s, comment_id, student_id) || (next_id < i32::MAX && s.len() < MAX_ROWS),
    ensures
        has_vote(spec_set_vote(s, next_id, comment_id, student_id, upvote), comment_id, student_id),
        find_vote(spec_set_vote(s, next_id, comment_id, student_id, upvote), comment_id, student_id)
            == Some(
            VoteV {
                id: if has_vote(s, comment_id, student_id) {
                    s[vote_index(s, comment_id, student_id)].id
                } else {
                    next_id
                },
                comment_id: comment_id,
                student_id: student_id,
                upvote: upvote,
            },
        ),
        spec_set_vote(s, next_id, comment_id, student_id, upvote).len() == s.len() + if has_vote(
            s,
            comment_id,
            student_id,
        ) {
            0int
        } else {
            1int
        },
{
    let s2 = spec_set_vote(s, next_id, comment_id, student_id, upvote);
    let next2 = spec_next_after_set(s, next_id, comment_id, student_id);
    lemma_set_vote_preserves_wf(s, next_id, comment_id, student_id, upvote);
    if has_vote(s, comment_id, student_id) {
        let k = vote_index(s, comment_id, student_id);
        assert(s2[k].comment_id == comment_id && s2[k].student_id == student_id);
        lemma_vote_index_unique(s2, next2, k);
    } else {
        let k = s2.len() - 1;
        assert(s2[k].comment_id == comment_id && s2[k].student_id == student_id);
        lemma_vote_index_unique(s2, next2, k);
    }
}

/// Upsert idempotence: casting the same vote twice leaves the table exactly
/// as the first cast left it.
pub proof fn lemma_vote_upsert_idempotent(
    s: Seq<VoteV>,
    next_id: i32,
    next_id2: i32,
    comment_id: i32,
    student_id: i32,
    upvote: bool,
)
    requires
        wf_votes(s, next_id),
        has_vote(s, comment_id, student_id) || (next_id < i32::MAX && s.len() < MAX_ROWS),
    ensures
        spec_set_vote(
            spec_set_vote(s, next_id, comment_id, student_id, upvote),
            next_id2,
            comment_id,
            student_id,
            upvote,
        ) == spec_set_vote(s, next_id, comment_id, student_id, upvote),
{
    let s1 = spec_set_vote(s, next_id, comment_id, student_id, upvote);
    let next1 = spec_next_after_set(s, next_id, comment_id, student_id);
    lemma_set_vote_preserves_wf(s, next_id, comment_id, student_id, upvote);
    lemma_set_vote_finds(s, next_id, comment_id, student_id, upvote);
    let k = vote_index(s1, comment_id, student_id);
    assert(s1[k].upvote == upvote);
    assert(spec_set_vote(s1, next_id2, comment_id, student_id, upvote) =~= s1);
}

/// Flip in place: re-casting the other direction overwrites the existing
/// row; the row count does not change.
pub proof fn lemma_vote_flip_in_place(
    s: Seq<VoteV>,
    next_id: i32,
    next_id2: i32,
    comment_id: i32,
    student_id: i32,
    first: bool,
    second: bool,
)
    requires
        wf_votes(s, next_id),
        has_vote(s, comment_id, student_id) || (next_id < i32::MAX && s.len() < MAX_ROWS),
    ensures
        spec_set_vote(
            spec_set_vote(s, next_id, comment_id, student_id, first),
            next_id2,
            comment_id,
            student_id,
            second,
        ).len() == spec_set_vote(s, next_id, comment_id, student_id, first).len(),
        find_vote(
            spec_set_vote(
                spec_set_vote(s, next_id, comment_id, student_id, first),
                next_id2,
                comment_id,
                student_id,
                second,
            ),
            comment_id,
            student_id,
        ) is Some,
        find_vote(
            spec_set_vote(
                spec_set_vote(s, next_id, comment_id, student_id, first),
                next_id2,
                comment_id,
                student_id,
                second,
            ),
            comment_id,
            student_id,
        )->0.upvote == second,
{
    let s1 = spec_set_vote(s, next_id, comment_id, student_id, first);
    let next1 = spec_next_after_set(s, next_id, comment_id, student_id);
    lemma_set_vote_preserves_wf(s, next_id, comment_id, student_id, first);
    lemma_set_vote_finds(s, next_id, comment_id, student_id, first);
    lemma_set_vote_finds(s1, next1, comment_id, student_id, second);
}

/// Unvoting after a cast removes the pair's row: one row fewer, and no row
/// for the pair is left.
pub proof fn lemma_unvote_after_vote(
    s: Seq<VoteV>,
    next_id: i32,
    comment_id: i32,
    student_id: i32,
    upvote: bool,
)
    requires
        wf_votes(s, next_id),
        has_vote(s, comment_id, student_id) || (next_id < i32::MAX && s.len() < MAX_ROWS),
    ensures
        spec_unvote(
            spec_set_vote(s, next_id, comment_id, student_id, upvote),
            comment_id,
            student_id,
        ).len() == spec_set_vote(s, next_id, comment_id, student_id, upvote).len() - 1,
        !has_vote(
            spec_unvote(
                spec_set_vote(s, next_id, comment_id, student_id, upvote),
                comment_id,
                student_id,
            ),
            comment_id,
            student_id,
        ),
{
    let s1 = spec_set_vote(s, next_id, comment_id, student_id, upvote);
    let next1 = spec_next_after_set(s, next_id, comment_id, student_id);
    lemma_set_vote_preserves_wf(s, next_id, comment_id, student_id, upvote);
    lemma_set_vote_finds(s, next_id, comment_id, student_id, upvote);
    let k = vote_index(s1, comment_id, student_id);
    let s2 = s1.remove(k);
    assert forall|j: int| 0 <= j < s2.len() implies !((#[trigger] s2[j]).comment_id == comment_id
        && s2[j].student_id == student_id) by {
        let j0 = if j < k {
            j
        } else {
            j + 1
        };
        assert(s2[j] == s1[j0]);
        if j0 < k {
            assert(!(s1[j0].comment_id == s1[k].comment_id && s1[j0].student_id
                == s1[k].student_id));
        } else {
            assert(!(s1[k].comment_id == s1[j0].comment_id && s1[k].student_id
                == s1[j0].student_id));
        }
    }
}

/// Unvoting a pair that has no row changes nothing.
pub proof fn lemma_unvote_absent(s: Seq<VoteV>, comment_id: i32, student_id: i32)
    requires
        !has_vote(s, comment_id, student_id),
    ensures
        spec_unvote(s, comment_id, student_id) == s,
{
}

// ---------------------------------------------------------------------------
// Student comment vote operations
// ---------------------------------------------------------------------------

impl Store {
    /// The index of the vote row for this (comment, voter) pair.
    fn find_student_vote_idx(&self, comment_id: i32, student_id: i32) -> (r: Option<usize>)
        ensures
            match r {
                Some(i) => 0 <= i < self@.student_comment_votes.len()
                    && self@.student_comment_votes[i as int].comment_id == comment_id
                    && self@.student_comment_votes[i as int].student_id == student_id,
                None => !has_vote(self@.student_comment_votes, comment_id, student_id),
            },
    {
        let n = self.student_comment_votes.len();
        let mut i: usize = 0;
        while i < n
            invariant
                n == self@.student_comment_votes.len(),
                0 <= i <= n,
                forall|j: int|
                    0 <= j < i ==> !((#[trigger] self@.student_comment_votes[j]).comment_id
                        == comment_id && self@.student_comment_votes[j].student_id == student_id),
            decreases n - i,
        {
            if self.student_comment_votes[i].comment_id == comment_id
                && self.student_comment_votes[i].student_id == student_id {
                return Some(i);
            }
            i += 1;
        }
        None
    }

    /// Cast a vote on a student comment: overwrite the voter's existing row
    /// for the comment, or insert one. Fails only when a row would be
    /// inserted and the id space is exhausted.
    pub fn set_student_comment_vote(&mut self, comment_id: i32, student_id: i32, upvote: bool)
        -> (r: Result<StudentCommentVote, BabibappError>)
        requires
            old(self).wf(),
        ensures
            final(self).wf(),
            r is Err <==> (!has_vote(old(self)@.student_comment_votes, comment_id, student_id) && (
            old(self)@.next_student_comment_vote_id == i32::MAX || old(
                self,
            )@.student_comment_votes.len() >= MAX_ROWS)),
            match r {
                Ok(v) => {
                    &&& final(self)@ == (StoreV {
                        student_comment_votes: spec_set_vote(
                            old(self)@.student_comment_votes,
                            old(self)@.next_student_comment_vote_id,
                            comment_id,
                            student_id,
                            upvote,
                        ),
                        next_student_comment_vote_id: spec_next_after_set(
                            old(self)@.student_comment_votes,
                            old(self)@.next_student_comment_vote_id,
                            comment_id,
                            student_id,
                        ),
                        ..old(self)@
                    })
                    &&& Some(v@) == find_vote(
                        final(self)@.student_comment_votes,
                        comment_id,
                        student_id,
                    )
                    &&& v@.comment_id == comment_id
                    &&& v@.student_id == student_id
                    &&& v@.upvote == upvote
                },
                Err(e) => e.kind == ErrorKind::Internal && final(self)@ == old(self)@,
            },
    {
        let ghost old_votes = self@.student_comment_votes;
        let ghost old_next = self@.next_student_comment_vote_id;
        match self.find_student_vote_idx(comment_id, student_id) {
            Some(i) => {
                proof {
                    lemma_vote_index_unique(old_votes, old_next, i as int);
                    lemma_set_vote_preserves_wf(old_votes, old_next, comment_id, student_id, upvote);
                    lemma_set_vote_finds(old_votes, old_next, comment_id, student_id, upvote);
                }
                let row = self.student_comment_votes[i];
                let updated = StudentCommentVote {
                    id: row.id,
                    comment_id: row.comment_id,
                    student_id: row.student_id,
                    upvote,
                };
                self.student_comment_votes[i] = updated;
                proof {
                    assert(self@.student_comment_votes =~= spec_set_vote(
                        old_votes,
                        old_next,
                        comment_id,
                        student_id,
                        upvote,
                    ));
                }
                Ok(updated)
            },
            None => {
                if self.next_student_comment_vote_id == i32::MAX
                    || self.student_comment_votes.len() >= MAX_ROWS {
                    return Err(BabibappError::with_msg(ErrorKind::Internal, "vote table full"));
                }
                proof {
                    lemma_set_vote_preserves_wf(old_votes, old_next, comment_id, student_id, upvote);
                    lemma_set_vote_finds(old_votes, old_next, comment_id, student_id, upvote);
                }
                let vote = StudentCommentVote {
                    id: self.next_student_comment_vote_id,
                    comment_id,
                    student_id,
                    upvote,
                };
                self.student_comment_votes.push(vote);
                self.next_student_comment_vote_id = self.next_student_comment_vote_id + 1;
                proof {
                    assert(self@.student_comment_votes =~= spec_set_vote(
                        old_votes,
                        old_next,
                        comment_id,
                        student_id,
                        upvote,
                    ));
                }
                Ok(vote)
            },
        }
    }

    /// Remove this voter's vote on a student comment, if one exists; the
    /// removed row is returned, and a missing row is a no-op, not an error.
    pub fn unvote_student_comment(&mut self, comment_id: i32, student_id: i32) -> (r: Option<
        StudentCommentVote,
    >)
        requires
            old(self).wf(),
        ensures
            final(self).wf(),
            final(self)@ == (StoreV {
                student_comment_votes: spec_unvote(
                    old(self)@.student_comment_votes,
                    comment_id,
                    student_id,
                ),
                ..old(self)@
            }),
            match r {
                Some(v) => find_vote(old(self)@.student_comment_votes, comment_id, student_id)
                    == Some(v@),
                None => !has_vote(old(self)@.student_comment_votes, comment_id, student_id),
            },
    {
        let ghost old_votes = self@.student_comment_votes;
        let ghost old_next = self@.next_student_comment_vote_id;
        match self.find_student_vote_idx(comment_id, student_id) {
            None => None,
            Some(i) => {
                proof {
                    lemma_vote_index_unique(old_votes, old_next, i as int);
                    lemma_unvote_preserves_wf(old_votes, old_next, comment_id, student_id);
                }
                let out = self.student_comment_votes.remove(i);
                proof {
                    assert(self@.student_comment_votes =~= spec_unvote(
                        old_votes,
                        comment_id,
                        student_id,
                    ));
                }
                Some(out)
            },
        }
    }

    /// The net score of a student comment: upvotes minus downvotes,
    /// recomputed over the whole table on every call.
    pub fn student_comment_score(&self, comment_id: i32) -> (r: i64)
        requires
            self.wf(),
        ensures
            r == spec_score(self@.student_comment_votes, comment_id),
            r == count_votes(self@.student_comment_votes, comment_id, true) - count_votes(
                self@.student_comment_votes,
                comment_id,
                false,
            ),
    {
        let n = self.student_comment_votes.len();
        let mut up: i64 = 0;
        let mut down: i64 = 0;
        let mut i: usize = 0;
        while i < n
            invariant
                n == self@.student_comment_votes.len(),
                n <= MAX_ROWS,
                0 <= i <= n,
                0 <= up <= i,
                0 <= down <= i,
                up == count_votes(self@.student_comment_votes.take(i as int), comment_id, true),
                down == count_votes(self@.student_comment_votes.take(i as int), comment_id, false),
            decreases n - i,
        {
            proof {
                assert(self@.student_comment_votes.take(i as int + 1).drop_last()
                    =~= self@.student_comment_votes.take(i as int));
                assert(self@.student_comment_votes.take(i as int + 1).last()
                    == self@.student_comment_votes[i as int]);
            }
            let v = self.student_comment_votes[i];
            if v.comment_id == comment_id {
                if v.upvote {
                    up = up + 1;
                } else {
                    down = down + 1;
                }
            }
            i += 1;
        }
        proof {
            assert(self@.student_comment_votes.take(n as int) =~= self@.student_comment_votes);
        }
        up - down
    }
}

// ---------------------------------------------------------------------------
// Teacher comment table operations
// ---------------------------------------------------------------------------

impl Store {
    /// The index of the teacher comment row with this id.
    fn find_teacher_comment_idx(&self, comment_id: i32) -> (r: Option<usize>)
        ensures
            match r {
                Some(i) => 0 <= i < self@.teacher_comments.len()
                    && self@.teacher_comments[i as int].id == comment_id,
                None => !has_comment(self@.teacher_comments, comment_id),
            },
    {
        let n = self.teacher_comments.len();
        let mut i: usize = 0;
        while i < n
            invariant
                n == self@.teacher_comments.len(),
                0 <= i <= n,
                forall|j: int|
                    0 <= j < i ==> (#[trigger] self@.teacher_comments[j]).id != comment_id,
            decreases n - i,
        {
            if self.teacher_comments[i].id == comment_id {
                return Some(i);
            }
            i += 1;
        }
        None
    }

    /// The teacher comment with this id, if any.
    pub fn get_teacher_comment(&self, comment_id: i32) -> (r: Option<TeacherComment>)
        requires
            self.wf(),
        ensures
            match r {
                Some(c) => find_comment(self@.teacher_comments, comment_id) == Some(c@),
                None => find_comment(self@.teacher_comments, comment_id) is None,
            },
    {
        match self.find_teacher_comment_idx(comment_id) {
            Some(i) => {
                proof {
                    lemma_comment_index_unique(
                        self@.teacher_comments,
                        self@.next_teacher_comment_id,
                        i as int,
                    );
                }
                Some(self.teacher_comments[i].duplicate())
            },
            None => None,
        }
    }

    /// Insert a new teacher comment, assigning the next id.
    pub fn insert_teacher_comment(&mut self, new: NewTeacherComment, now: i64) -> (r: Result<
        TeacherComment,
        BabibappError,
    >)
        requires
            old(self).wf(),
        ensures
            final(self).wf(),
            r is Err <==> (old(self)@.next_teacher_comment_id == i32::MAX || old(
                self,
            )@.teacher_comments.len() >= MAX_ROWS),
            match r {
                Ok(c) => {
                    &&& c@ == (CommentV {
                        id: old(self)@.next_teacher_comment_id,
                        author_id: new.author_id,
                        receiver_id: new.receiver_id,
                        body: new.body@,
                        published: spec_published_at(new.published, now),
                    })
                    &&& final(self)@ == (StoreV {
                        teacher_comments: old(self)@.teacher_comments.push(c@),
                        next_teacher_comment_id: (old(self)@.next_teacher_comment_id + 1) as i32,
                        ..old(self)@
                    })
                },
                Err(e) => e.kind == ErrorKind::Internal && final(self)@ == old(self)@,
            },
    {
        if self.next_teacher_comment_id == i32::MAX || self.teacher_comments.len() >= MAX_ROWS {
            return Err(BabibappError::with_msg(ErrorKind::Internal, "comment table full"));
        }
        let id = self.next_teacher_comment_id;
        let published = match new.published {
            Some(t) => t,
            None => now,
        };
        let comment = TeacherComment {
            id,
            author_id: new.author_id,
            receiver_id: new.receiver_id,
            body: new.body,
            published,
        };
        let result = comment.duplicate();
        self.teacher_comments.push(comment);
        self.next_teacher_comment_id = id + 1;
        proof {
            assert(self@.teacher_comments =~= old(self)@.teacher_comments.push(result@));
            assert forall|i: int, j: int| 0 <= i < j < self@.teacher_comments.len() implies (
            #[trigger] self@.teacher_comments[i]).id != (#[trigger] self@.teacher_comments[j]).id
            by {
                if j == self@.teacher_comments.len() - 1 {
                    assert(self@.teacher_comments[i] == old(self)@.teacher_comments[i]);
                }
            }
        }
        Ok(result)
    }

    /// Delete the teacher comment with this id, returning the deleted row.
    pub fn delete_teacher_comment(&mut self, comment_id: i32) -> (r: Option<TeacherComment>)
        requires
            old(self).wf(),
        ensures
            final(self).wf(),
            final(self)@ == (StoreV {
                teacher_comments: spec_delete_comment(old(self)@.teacher_comments, comment_id),
                ..old(self)@
            }),
            match r {
                Some(c) => find_comment(old(self)@.teacher_comments, comment_id) == Some(c@),
                None => !has_comment(old(self)@.teacher_comments, comment_id),
            },
    {
        match self.find_teacher_comment_idx(comment_id) {
            None => None,
            Some(i) => {
                proof {
                    lemma_comment_index_unique(
                        self@.teacher_comments,
                        self@.next_teacher_comment_id,
                        i as int,
                    );
                }
                let out = self.teacher_comments.remove(i);
                proof {
                    assert(self@.teacher_comments =~= old(self)@.teacher_comments.remove(i as int));
                    assert forall|a: int, b: int| 0 <= a < b < self@.teacher_comments.len()
                        implies (#[trigger] self@.teacher_comments[a]).id != (
                    #[trigger] self@.teacher_comments[b]).id by {
                        let a0 = if a < i as int {
                            a
                        } else {
                            a + 1
                        };
                        let b0 = if b < i as int {
                            b
                        } else {
                            b + 1
                        };
                        assert(self@.teacher_comments[a] == old(self)@.teacher_comments[a0]);
                        assert(self@.teacher_comments[b] == old(self)@.teacher_comments[b0]);
                    }
                }
                Some(out)
            },
        }
    }
}

// ---------------------------------------------------------------------------
// Teacher comment vote operations
// ---------------------------------------------------------------------------

impl Store {
    /// The index of the vote row for this (comment, voter) pair.
    fn find_teacher_vote_idx(&self, comment_id: i32, student_id: i32) -> (r: Option<usize>)
        ensures
            match r {
                Some(i) => 0 <= i < self@.teacher_comment_votes.len()
                    && self@.teacher_comment_votes[i as int].comment_id == comment_id
                    && self@.teacher_comment_votes[i as int].student_id == student_id,
                None => !has_vote(self@.teacher_comment_votes, comment_id, student_id),
            },
    {
        let n = self.teacher_comment_votes.len();
        let mut i: usize = 0;
        while i < n
            invariant
                n == self@.teacher_comment_votes.len(),
                0 <= i <= n,
                forall|j: int|
                    0 <= j < i ==> !((#[trigger] self@.teacher_comment_votes[j]).comment_id
                        == comment_id && self@.teacher_comment_votes[j].student_id == student_id),
            decreases n - i,
        {
            if self.teacher_comment_votes[i].comment_id == comment_id
                && self.teacher_comment_votes[i].student_id == student_id {
                return Some(i);
            }
            i += 1;
        }
        None
    }

    /// Cast a vote on a teacher comment: overwrite the voter's existing row
    /// for the comment, or insert one.
    pub fn set_teacher_comment_vote(&mut self, comment_id: i32, student_id: i32, upvote: bool)
        -> (r: Result<TeacherCommentVote, BabibappError>)
        requires
            old(self).wf(),
        ensures
            final(self).wf(),
            r is Err <==> (!has_vote(old(self)@.teacher_comment_votes, comment_id, student_id) && (
            old(self)@.next_teacher_comment_vote_id == i32::MAX || old(
                self,
            )@.teacher_comment_votes.len() >= MAX_ROWS)),
            match r {
                Ok(v) => {
                    &&& final(self)@ == (StoreV {
                        teacher_comment_votes: spec_set_vote(
                            old(self)@.teacher_comment_votes,
                            old(self)@.next_teacher_comment_vote_id,
                            comment_id,
                            student_id,
                            upvote,
                        ),
                        next_teacher_comment_vote_id: spec_next_after_set(
                            old(self)@.teacher_comment_votes,
                            old(self)@.next_teacher_comment_vote_id,
                            comment_id,
                            student_id,
                        ),
                        ..old(self)@
                    })
                    &&& Some(v@) == find_vote(
                        final(self)@.teacher_comment_votes,
                        comment_id,
                        student_id,
                    )
                    &&& v@.comment_id == comment_id
                    &&& v@.student_id == student_id
                    &&& v@.upvote == upvote
                },
                Err(e) => e.kind == ErrorKind::Internal && final(self)@ == old(self)@,
            },
    {
        let ghost old_votes = self@.teacher_comment_votes;
        let ghost old_next = self@.next_teacher_comment_vote_id;
        match self.find_teacher_vote_idx(comment_id, student_id) {
            Some(i) => {
                proof {
                    lemma_vote_index_unique(old_votes, old_next, i as int);
                    lemma_set_vote_preserves_wf(old_votes, old_next, comment_id, student_id, upvote);
                    lemma_set_vote_finds(old_votes, old_next, comment_id, student_id, upvote);
                }
                let row = self.teacher_comment_votes[i];
                let updated = TeacherCommentVote {
                    id: row.id,
                    comment_id: row.comment_id,
                    student_id: row.student_id,
                    upvote,
                };
                self.teacher_comment_votes[i] = updated;
                proof {
                    assert(self@.teacher_comment_votes =~= spec_set_vote(
                        old_votes,
                        old_next,
                        comment_id,
                        student_id,
                        upvote,
                    ));
                }
                Ok(updated)
            },
            None => {
                if self.next_teacher_comment_vote_id == i32::MAX
                    || self.teacher_comment_votes.len() >= MAX_ROWS {
                    return Err(BabibappError::with_msg(ErrorKind::Internal, "vote table full"));
                }
                proof {
                    lemma_set_vote_preserves_wf(old_votes, old_next, comment_id, student_id, upvote);
                    lemma_set_vote_finds(old_votes, old_next, comment_id, student_id, upvote);
                }
                let vote = TeacherCommentVote {
                    id: self.next_teacher_comment_vote_id,
                    comment_id,
                    student_id,
                    upvote,
                };
                self.teacher_comment_votes.push(vote);
                self.next_teacher_comment_vote_id = self.next_teacher_comment_vote_id + 1;
                proof {
                    assert(self@.teacher_comment_votes =~= spec_set_vote(
                        old_votes,
                        old_next,
                        comment_id,
                        student_id,
                        upvote,
                    ));
                }
                Ok(vote)
            },
        }
    }

    /// Remove this voter's vote on a teacher comment, if one exists.
    pub fn unvote_teacher_comment(&mut self, comment_id: i32, student_id: i32) -> (r: Option<
        TeacherCommentVote,
    >)
        requires
            old(self).wf(),
        ensures
            final(self).wf(),
            final(self)@ == (StoreV {
                teacher_comment_votes: spec_unvote(
                    old(self)@.teacher_comment_votes,
                    comment_id,
                    student_id,
                ),
                ..old(self)@
            }),
            match r {
                Some(v) => find_vote(old(self)@.teacher_comment_votes, comment_id, student_id)
                    == Some(v@),
                None => !has_vote(old(self)@.teacher_comment_votes, comment_id, student_id),
            },
    {
        let ghost old_votes = self@.teacher_comment_votes;
        let ghost old_next = self@.next_teacher_comment_vote_id;
        match self.find_teacher_vote_idx(comment_id, student_id) {
            None => None,
            Some(i) => {
                proof {
                    lemma_vote_index_unique(old_votes, old_next, i as int);
                    lemma_unvote_preserves_wf(old_votes, old_next, comment_id, student_id);
                }
                let out = self.teacher_comment_votes.remove(i);
                proof {
                    assert(self@.teacher_comment_votes =~= spec_unvote(
                        old_votes,
                        comment_id,
                        student_id,
                    ));
                }
                Some(out)
            },
        }
    }

    /// The net score of a teacher comment: upvotes minus downvotes.
    pub fn teacher_comment_score(&self, comment_id: i32) -> (r: i64)
        requires
            self.wf(),
        ensures
            r == spec_score(self@.teacher_comment_votes, comment_id),
            r == count_votes(self@.teacher_comment_votes, comment_id, true) - count_votes(
                self@.teacher_comment_votes,
                comment_id,
                false,
            ),
    {
        let n = self.teacher_comment_votes.len();
        let mut up: i64 = 0;
        let mut down: i64 = 0;
        let mut i: usize = 0;
        while i < n
            invariant
                n == self@.teacher_comment_votes.len(),
                n <= MAX_ROWS,
                0 <= i <= n,
                0 <= up <= i,
                0 <= down <= i,
                up == count_votes(self@.teacher_comment_votes.take(i as int), comment_id, true),
                down == count_votes(self@.teacher_comment_votes.take(i as int), comment_id, false),
            decreases n - i,
        {
            proof {
                assert(self@.teacher_comment_votes.take(i as int + 1).drop_last()
                    =~= self@.teacher_comment_votes.take(i as int));
                assert(self@.teacher_comment_votes.take(i as int + 1).last()
                    == self@.teacher_comment_votes[i as int]);
            }
            let v = self.teacher_comment_votes[i];
            if v.comment_id == comment_id {
                if v.upvote {
                    up = up + 1;
                } else {
                    down = down + 1;
                }
            }
            i += 1;
        }
        proof {
            assert(self@.teacher_comment_votes.take(n as int) =~= self@.teacher_comment_votes);
        }
        up - down
    }
}

} // verus!
