//! The teacher endpoints.
//!
//! Teachers have no owner: any authenticated caller reads them in full,
//! and every mutation is admin-only.

use vstd::prelude::*;

use crate::auth::{spec_authenticate, view_opt_str, Claims};
use crate::error::{BabibappError, ErrorKind};
use crate::models::teacher::{NewTeacher, Teacher, TeacherV};
use crate::policy::{policy_allows, Policy};
use crate::request::{require_auth, res_view};
use crate::store::{
    find_teacher, lemma_update_teacher_finds, spec_delete_teacher, spec_update_teacher,
    teacher_with, Store, StoreV, MAX_ROWS,
};

verus! {

/// What a read of one teacher yields: the full row for any authenticated
/// caller.
pub open spec fn spec_get_teacher(s: StoreV, auth: Option<Claims>, teacher_id: i32) -> Result<
    TeacherV,
    ErrorKind,
> {
    match auth {
        None => Err(ErrorKind::Unauthenticated),
        Some(_) => match find_teacher(s.teachers, teacher_id) {
            None => Err(ErrorKind::NotFound),
            Some(t) => Ok(t),
        },
    }
}

/// What a read of the whole table yields: every row, unredacted.
pub open spec fn spec_get_all(s: StoreV, auth: Option<Claims>) -> Result<Seq<TeacherV>, ErrorKind> {
    match auth {
        None => Err(ErrorKind::Unauthenticated),
        Some(_) => Ok(s.teachers),
    }
}

/// What adding a teacher does: admin-only; the new row takes the next id.
pub open spec fn spec_add(s: StoreV, auth: Option<Claims>, name: Seq<char>, prefix: Seq<char>)
    -> (Result<TeacherV, ErrorKind>, StoreV) {
    match auth {
        None => (Err(ErrorKind::Unauthenticated), s),
        Some(c) => if !policy_allows(Policy::IsAdmin, c, 0) {
            (Err(ErrorKind::Forbidden), s)
        } else if s.next_teacher_id == i32::MAX || s.teachers.len() >= MAX_ROWS {
            (Err(ErrorKind::Internal), s)
        } else {
            let row = TeacherV { id: s.next_teacher_id, name: name, prefix: prefix };
            (
                Ok(row),
                StoreV {
                    teachers: s.teachers.push(row),
                    next_teacher_id: (s.next_teacher_id + 1) as i32,
                    ..s
                },
            )
        },
    }
}

/// What a teacher reset does: admin-only; name and prefix replaced.
pub open spec fn spec_reset(
    s: StoreV,
    auth: Option<Claims>,
    teacher_id: i32,
    name: Seq<char>,
    prefix: Seq<char>,
) -> (Result<TeacherV, ErrorKind>, StoreV) {
    match auth {
        None => (Err(ErrorKind::Unauthenticated), s),
        Some(c) => if !policy_allows(Policy::IsAdmin, c, teacher_id) {
            (Err(ErrorKind::Forbidden), s)
        } else {
            match find_teacher(s.teachers, teacher_id) {
                None => (Err(ErrorKind::NotFound), s),
                Some(t) => (
                    Ok(teacher_with(t, name, prefix)),
                    StoreV {
                        teachers: spec_update_teacher(s.teachers, teacher_id, name, prefix),
                        ..s
                    },
                ),
            }
        },
    }
}

/// What a teacher deletion does: admin-only; the deleted row is returned.
pub open spec fn spec_delete(s: StoreV, auth: Option<Claims>, teacher_id: i32) -> (Result<
    TeacherV,
    ErrorKind,
>, StoreV) {
    match auth {
        None => (Err(ErrorKind::Unauthenticated), s),
        Some(c) => if !policy_allows(Policy::IsAdmin, c, teacher_id) {
            (Err(ErrorKind::Forbidden), s)
        } else {
            match find_teacher(s.teachers, teacher_id) {
                None => (Err(ErrorKind::NotFound), s),
                Some(t) => (
                    Ok(t),
                    StoreV { teachers: spec_delete_teacher(s.teachers, teacher_id), ..s },
                ),
            }
        },
    }
}

/// Read one teacher.
pub fn get(store: &Store, auth_header: Option<&str>, secret: &str, now: i64, teacher_id: i32)
    -> (r: Result<Teacher, BabibappError>)
    requires
        store.wf(),
    ensures
        res_view(r) == spec_get_teacher(
            store@,
            spec_authenticate(view_opt_str(auth_header), secret@, now),
            teacher_id,
        ),
{
    let _claims = match require_auth(auth_header, secret, now) {
        Ok(c) => c,
        Err(e) => {
            return Err(e);
        },
    };
    match store.get_teacher(teacher_id) {
        None => Err(BabibappError::with_msg(ErrorKind::NotFound, "no teacher with this id")),
        Some(t) => Ok(t),
    }
}

/// Read the whole table.
pub fn get_all(store: &Store, auth_header: Option<&str>, secret: &str, now: i64) -> (r: Result<
    Vec<Teacher>,
    BabibappError,
>)
    requires
        store.wf(),
    ensures
        match spec_get_all(store@, spec_authenticate(view_opt_str(auth_header), secret@, now)) {
            Ok(rows) => r is Ok && (r->Ok_0)@.map_values(|t: Teacher| t@) == rows,
            Err(k) => r is Err && (r->Err_0).kind == k,
        },
{
    let _claims = match require_auth(auth_header, secret, now) {
        Ok(c) => c,
        Err(e) => {
            return Err(e);
        },
    };
    let n = store.teachers.len();
    let mut rows: Vec<Teacher> = Vec::new();
    let mut i: usize = 0;
    while i < n
        invariant
            n == store@.teachers.len(),
            0 <= i <= n,
            rows@.len() == i,
            forall|j: int| 0 <= j < i ==> (#[trigger] rows@[j])@ == store@.teachers[j],
        decreases n - i,
    {
        rows.push(store.teachers[i].duplicate());
        i += 1;
    }
    proof {
        assert(rows@.map_values(|t: Teacher| t@) =~= store@.teachers);
    }
    Ok(rows)
}

/// Add a teacher: admin-only.
pub fn add(
    store: &mut Store,
    auth_header: Option<&str>,
    secret: &str,
    now: i64,
    form: &NewTeacher,
) -> (r: Result<Teacher, BabibappError>)
    requires
        old(store).wf(),
    ensures
        final(store).wf(),
        (res_view(r), final(store)@) == spec_add(
            old(store)@,
            spec_authenticate(view_opt_str(auth_header), secret@, now),
            form.name@,
            form.prefix@,
        ),
{
    let claims = match require_auth(auth_header, secret, now) {
        Ok(c) => c,
        Err(e) => {
            return Err(e);
        },
    };
    if !Policy::IsAdmin.allows(&claims, 0) {
        return Err(BabibappError::with_msg(ErrorKind::Forbidden, "access only for admins"));
    }
    let new = NewTeacher { name: form.name.clone(), prefix: form.prefix.clone() };
    match store.insert_teacher(new) {
        Ok(t) => Ok(t),
        Err(e) => Err(e),
    }
}

/// Reset a teacher's name and prefix: admin-only.
pub fn reset(
    store: &mut Store,
    auth_header: Option<&str>,
    secret: &str,
    now: i64,
    teacher_id: i32,
    form: &NewTeacher,
) -> (r: Result<Teacher, BabibappError>)
    requires
        old(store).wf(),
    ensures
        final(store).wf(),
        (res_view(r), final(store)@) == spec_reset(
            old(store)@,
            spec_authenticate(view_opt_str(auth_header), secret@, now),
            teacher_id,
            form.name@,
            form.prefix@,
        ),
{
    let claims = match require_auth(auth_header, secret, now) {
        Ok(c) => c,
        Err(e) => {
            return Err(e);
        },
    };
    if !Policy::IsAdmin.allows(&claims, teacher_id) {
        return Err(BabibappError::with_msg(ErrorKind::Forbidden, "access only for admins"));
    }
    proof {
        lemma_update_teacher_finds(
            store@.teachers,
            store@.next_teacher_id,
            teacher_id,
            form.name@,
            form.prefix@,
        );
    }
    match store.reset_teacher(teacher_id, &form.name, &form.prefix) {
        None => Err(BabibappError::with_msg(ErrorKind::NotFound, "no teacher with this id")),
        Some(t) => Ok(t),
    }
}

/// Delete a teacher: admin-only; the deleted row is returned.
pub fn delete(
    store: &mut Store,
    auth_header: Option<&str>,
    secret: &str,
    now: i64,
    teacher_id: i32,
) -> (r: Result<Teacher, BabibappError>)
    requires
        old(store).wf(),
    ensures
        final(store).wf(),
        (res_view(r), final(store)@) == spec_delete(
            old(store)@,
            spec_authenticate(view_opt_str(auth_header), secret@, now),
            teacher_id,
        ),
{
    let claims = match require_auth(auth_header, secret, now) {
        Ok(c) => c,
        Err(e) => {
            return Err(e);
        },
    };
    if !Policy::IsAdmin.allows(&claims, teacher_id) {
        return Err(BabibappError::with_msg(ErrorKind::Forbidden, "access only for admins"));
    }
    match store.delete_teacher(teacher_id) {
        None => Err(BabibappError::with_msg(ErrorKind::NotFound, "no teacher with this id")),
        Some(t) => Ok(t),
    }
}

} // verus!
