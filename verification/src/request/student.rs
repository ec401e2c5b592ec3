//! The student endpoints.
//!
//! Reads project the account through the view projector; mutations are
//! gated by the policy table — registration, name resets, admin grants and
//! full resets are admin-only, while email and password resets and
//! deletion are open to the account itself as well. A denied mutation
//! returns `Forbidden` and leaves the store untouched.

use vstd::prelude::*;

use crate::auth::{spec_authenticate, view_opt_str, Claims};
use crate::error::{BabibappError, ErrorKind};
use crate::models::student::{
    NewStudent, RegisterStudent, Student, StudentV, StudentView, StudentViewV,
};
use crate::models::wrappers::{EmailWrapper, NameWrapper, PasswordWrapper};
use crate::password::{bcrypt_verified, hash_password};
use crate::policy::{policy_allows, Policy};
use crate::project::{project_student, spec_project_student};
use crate::request::{require_auth, res_view};
use crate::store::{
    find_student, has_student, lemma_update_student_finds, spec_admin_flag, spec_delete_student,
    spec_update_student, student_as_admin, student_with_all, student_with_email,
    student_with_name, student_with_password, wf_students, Store, StoreV, MAX_ROWS,
};

verus! {

/// What a read of one student yields for this caller.
pub open spec fn spec_get_student(s: StoreV, auth: Option<Claims>, student_id: i32) -> Result<
    StudentViewV,
    ErrorKind,
> {
    match auth {
        None => Err(ErrorKind::Unauthenticated),
        Some(c) => match find_student(s.students, student_id) {
            None => Err(ErrorKind::NotFound),
            Some(st) => Ok(spec_project_student(st, c)),
        },
    }
}

/// What a read of the caller's own account yields: always the full row.
pub open spec fn spec_get_self(s: StoreV, auth: Option<Claims>) -> Result<StudentV, ErrorKind> {
    match auth {
        None => Err(ErrorKind::Unauthenticated),
        Some(c) => match find_student(s.students, c.id) {
            None => Err(ErrorKind::NotFound),
            Some(st) => Ok(st),
        },
    }
}

/// What a read of the whole table yields: every row, each projected for
/// this caller.
pub open spec fn spec_get_all(s: StoreV, auth: Option<Claims>) -> Result<
    Seq<StudentViewV>,
    ErrorKind,
> {
    match auth {
        None => Err(ErrorKind::Unauthenticated),
        Some(c) => Ok(s.students.map_values(|st: StudentV| spec_project_student(st, c))),
    }
}

/// What registering an account does: admin-only; the new row takes the
/// next id and a missing admin flag means a regular account.
pub open spec fn spec_register(
    s: StoreV,
    auth: Option<Claims>,
    email: Seq<char>,
    first: Seq<char>,
    last: Seq<char>,
    password_hash: Seq<char>,
    admin: Option<bool>,
) -> (Result<StudentV, ErrorKind>, StoreV) {
    match auth {
        None => (Err(ErrorKind::Unauthenticated), s),
        Some(c) => if !policy_allows(Policy::IsAdmin, c, 0) {
            (Err(ErrorKind::Forbidden), s)
        } else if s.next_student_id == i32::MAX || s.students.len() >= MAX_ROWS {
            (Err(ErrorKind::Internal), s)
        } else {
            let row = StudentV {
                id: s.next_student_id,
                email: email,
                first_name: first,
                last_name: last,
                password_hash: password_hash,
                admin: spec_admin_flag(admin),
            };
            (
                Ok(row),
                StoreV {
                    students: s.students.push(row),
                    next_student_id: (s.next_student_id + 1) as i32,
                    ..s
                },
            )
        },
    }
}

/// What an email reset does: the account itself or an admin.
pub open spec fn spec_reset_email(
    s: StoreV,
    auth: Option<Claims>,
    student_id: i32,
    email: Seq<char>,
) -> (Result<StudentV, ErrorKind>, StoreV) {
    match auth {
        None => (Err(ErrorKind::Unauthenticated), s),
        Some(c) => if !policy_allows(Policy::IsSelfOrAdmin, c, student_id) {
            (Err(ErrorKind::Forbidden), s)
        } else {
            match find_student(s.students, student_id) {
                None => (Err(ErrorKind::NotFound), s),
                Some(st) => (
                    Ok(student_with_email(st, email)),
                    StoreV {
                        students: spec_update_student(
                            s.students,
                            student_id,
                            |sv: StudentV| student_with_email(sv, email),
                        ),
                        ..s
                    },
                ),
            }
        },
    }
}

/// What a password reset does: the account itself or an admin; the row
/// receives the presented hash.
pub open spec fn spec_reset_password(
    s: StoreV,
    auth: Option<Claims>,
    student_id: i32,
    password_hash: Seq<char>,
) -> (Result<StudentV, ErrorKind>, StoreV) {
    match auth {
        None => (Err(ErrorKind::Unauthenticated), s),
        Some(c) => if !policy_allows(Policy::IsSelfOrAdmin, c, student_id) {
            (Err(ErrorKind::Forbidden), s)
        } else {
            match find_student(s.students, student_id) {
                None => (Err(ErrorKind::NotFound), s),
                Some(st) => (
                    Ok(student_with_password(st, password_hash)),
                    StoreV {
                        students: spec_update_student(
                            s.students,
                            student_id,
                            |sv: StudentV| student_with_password(sv, password_hash),
                        ),
                        ..s
                    },
                ),
            }
        },
    }
}

/// What a name reset does: admin-only, even for the account itself.
pub open spec fn spec_reset_name(
    s: StoreV,
    auth: Option<Claims>,
    student_id: i32,
    first: Seq<char>,
    last: Seq<char>,
) -> (Result<StudentV, ErrorKind>, StoreV) {
    match auth {
        None => (Err(ErrorKind::Unauthenticated), s),
        Some(c) => if !policy_allows(Policy::IsAdmin, c, student_id) {
            (Err(ErrorKind::Forbidden), s)
        } else {
            match find_student(s.students, student_id) {
                None => (Err(ErrorKind::NotFound), s),
                Some(st) => (
                    Ok(student_with_name(st, first, last)),
                    StoreV {
                        students: spec_update_student(
                            s.students,
                            student_id,
                            |sv: StudentV| student_with_name(sv, first, last),
                        ),
                        ..s
                    },
                ),
            }
        },
    }
}

/// What an admin grant does: admin-only.
pub open spec fn spec_make_admin(s: StoreV, auth: Option<Claims>, student_id: i32) -> (Result<
    StudentV,
    ErrorKind,
>, StoreV) {
    match auth {
        None => (Err(ErrorKind::Unauthenticated), s),
        Some(c) => if !policy_allows(Policy::IsAdmin, c, student_id) {
            (Err(ErrorKind::Forbidden), s)
        } else {
            match find_student(s.students, student_id) {
                None => (Err(ErrorKind::NotFound), s),
                Some(st) => (
                    Ok(student_as_admin(st)),
                    StoreV {
                        students: spec_update_student(
                            s.students,
                            student_id,
                            |sv: StudentV| student_as_admin(sv),
                        ),
                        ..s
                    },
                ),
            }
        },
    }
}

/// What a full reset does: admin-only; every field but the id replaced.
pub open spec fn spec_full_reset(
    s: StoreV,
    auth: Option<Claims>,
    student_id: i32,
    email: Seq<char>,
    first: Seq<char>,
    last: Seq<char>,
    password_hash: Seq<char>,
    admin: Option<bool>,
) -> (Result<StudentV, ErrorKind>, StoreV) {
    match auth {
        None => (Err(ErrorKind::Unauthenticated), s),
        Some(c) => if !policy_allows(Policy::IsAdmin, c, student_id) {
            (Err(ErrorKind::Forbidden), s)
        } else {
            match find_student(s.students, student_id) {
                None => (Err(ErrorKind::NotFound), s),
                Some(st) => (
                    Ok(student_with_all(st, email, first, last, password_hash, spec_admin_flag(admin))),
                    StoreV {
                        students: spec_update_student(
                            s.students,
                            student_id,
                            |sv: StudentV|
                                student_with_all(
                                    sv,
                                    email,
                                    first,
                                    last,
                                    password_hash,
                                    spec_admin_flag(admin),
                                ),
                        ),
                        ..s
                    },
                ),
            }
        },
    }
}

/// What a deletion does: the account itself or an admin; the deleted row
/// is returned.
pub open spec fn spec_delete(s: StoreV, auth: Option<Claims>, student_id: i32) -> (Result<
    StudentV,
    ErrorKind,
>, StoreV) {
    match auth {
        None => (Err(ErrorKind::Unauthenticated), s),
        Some(c) => if !policy_allows(Policy::IsSelfOrAdmin, c, student_id) {
            (Err(ErrorKind::Forbidden), s)
        } else {
            match find_student(s.students, student_id) {
                None => (Err(ErrorKind::NotFound), s),
                Some(st) => (
                    Ok(st),
                    StoreV { students: spec_delete_student(s.students, student_id), ..s },
                ),
            }
        },
    }
}

/// Read one student, projected for the caller.
pub fn get(store: &Store, auth_header: Option<&str>, secret: &str, now: i64, student_id: i32)
    -> (r: Result<StudentView, BabibappError>)
    requires
        store.wf(),
    ensures
        res_view(r) == spec_get_student(
            store@,
            spec_authenticate(view_opt_str(auth_header), secret@, now),
            student_id,
        ),
{
    let claims = match require_auth(auth_header, secret, now) {
        Ok(c) => c,
        Err(e) => {
            return Err(e);
        },
    };
    match store.get_student(student_id) {
        None => Err(BabibappError::with_msg(ErrorKind::NotFound, "no student with this id")),
        Some(student) => Ok(project_student(&student, &claims)),
    }
}

/// Read the caller's own account: always the full row.
pub fn get_self(store: &Store, auth_header: Option<&str>, secret: &str, now: i64) -> (r: Result<
    Student,
    BabibappError,
>)
    requires
        store.wf(),
    ensures
        res_view(r) == spec_get_self(
            store@,
            spec_authenticate(view_opt_str(auth_header), secret@, now),
        ),
{
    let claims = match require_auth(auth_header, secret, now) {
        Ok(c) => c,
        Err(e) => {
            return Err(e);
        },
    };
    match store.get_student(claims.id) {
        None => Err(BabibappError::with_msg(ErrorKind::NotFound, "no student with this id")),
        Some(student) => Ok(student),
    }
}

/// Read the whole table, each row projected for the caller.
pub fn get_all(store: &Store, auth_header: Option<&str>, secret: &str, now: i64) -> (r: Result<
    Vec<StudentView>,
    BabibappError,
>)
    requires
        store.wf(),
    ensures
        match spec_get_all(store@, spec_authenticate(view_opt_str(auth_header), secret@, now)) {
            Ok(views) => r is Ok && (r->Ok_0)@.map_values(|v: StudentView| v@) == views,
            Err(k) => r is Err && (r->Err_0).kind == k,
        },
{
    let claims = match require_auth(auth_header, secret, now) {
        Ok(c) => c,
        Err(e) => {
            return Err(e);
        },
    };
    let n = store.students.len();
    let mut views: Vec<StudentView> = Vec::new();
    let mut i: usize = 0;
    while i < n
        invariant
            n == store@.students.len(),
            0 <= i <= n,
            views@.len() == i,
            forall|j: int|
                0 <= j < i ==> (#[trigger] views@[j])@ == spec_project_student(
                    store@.students[j],
                    claims,
                ),
        decreases n - i,
    {
        views.push(project_student(&store.students[i], &claims));
        i += 1;
    }
    proof {
        assert(views@.map_values(|v: StudentView| v@) =~= store@.students.map_values(
            |st: StudentV| spec_project_student(st, claims),
        ));
    }
    Ok(views)
}

/// Register an account from a payload whose password is already hashed:
/// admin-only; the outcome is exactly the registration transition.
pub fn register_hashed(
    store: &mut Store,
    auth_header: Option<&str>,
    secret: &str,
    now: i64,
    form: &RegisterStudent,
    password_hash: &String,
) -> (r: Result<Student, BabibappError>)
    requires
        old(store).wf(),
    ensures
        final(store).wf(),
        (res_view(r), final(store)@) == spec_register(
            old(store)@,
            spec_authenticate(view_opt_str(auth_header), secret@, now),
            form.email@,
            form.first_name@,
            form.last_name@,
            password_hash@,
            form.admin,
        ),
{
    let claims = match require_auth(auth_header, secret, now) {
        Ok(c) => c,
        Err(e) => {
            return Err(e);
        },
    };
    if !Policy::IsAdmin.allows(&claims, 0) {
        return Err(BabibappError::with_msg(ErrorKind::Forbidden, "access only for admins"));
    }
    let new = NewStudent {
        email: form.email.clone(),
        first_name: form.first_name.clone(),
        last_name: form.last_name.clone(),
        password_hash: password_hash.clone(),
        admin: form.admin,
    };
    match store.insert_student(new) {
        Ok(s) => Ok(s),
        Err(e) => Err(e),
    }
}

/// Register an account: admin-only. The plain password of the payload is
/// hashed first; the stored hash is the one the result carries, and the
/// presented password verifies against it.
pub fn register(
    store: &mut Store,
    auth_header: Option<&str>,
    secret: &str,
    now: i64,
    form: &RegisterStudent,
) -> (r: Result<Student, BabibappError>)
    requires
        old(store).wf(),
    ensures
        final(store).wf(),
        match spec_authenticate(view_opt_str(auth_header), secret@, now) {
            None => r is Err && (r->Err_0).kind == ErrorKind::Unauthenticated && final(store)@
                == old(store)@,
            Some(c) => if !policy_allows(Policy::IsAdmin, c, 0) {
                r is Err && (r->Err_0).kind == ErrorKind::Forbidden && final(store)@ == old(
                    store,
                )@
            } else if old(store)@.next_student_id == i32::MAX || old(store)@.students.len()
                >= MAX_ROWS {
                r is Err && (r->Err_0).kind == ErrorKind::Internal && final(store)@ == old(
                    store,
                )@
            } else {
                r is Ok && bcrypt_verified(form.password@, (r->Ok_0)@.password_hash) && (
                res_view(r), final(store)@) == spec_register(
                    old(store)@,
                    spec_authenticate(view_opt_str(auth_header), secret@, now),
                    form.email@,
                    form.first_name@,
                    form.last_name@,
                    (r->Ok_0)@.password_hash,
                    form.admin,
                )
            },
        },
{
    let claims = match require_auth(auth_header, secret, now) {
        Ok(c) => c,
        Err(e) => {
            return Err(e);
        },
    };
    if !Policy::IsAdmin.allows(&claims, 0) {
        return Err(BabibappError::with_msg(ErrorKind::Forbidden, "access only for admins"));
    }
    let hashed = match hash_password(&form.password) {
        Ok(h) => h,
        Err(e) => {
            return Err(e);
        },
    };
    register_hashed(store, auth_header, secret, now, form, &hashed)
}

/// Reset a student's email: the account itself or an admin.
pub fn reset_email(
    store: &mut Store,
    auth_header: Option<&str>,
    secret: &str,
    now: i64,
    student_id: i32,
    form: &EmailWrapper,
) -> (r: Result<Student, BabibappError>)
    requires
        old(store).wf(),
    ensures
        final(store).wf(),
        (res_view(r), final(store)@) == spec_reset_email(
            old(store)@,
            spec_authenticate(view_opt_str(auth_header), secret@, now),
            student_id,
            form.email@,
        ),
{
    let claims = match require_auth(auth_header, secret, now) {
        Ok(c) => c,
        Err(e) => {
            return Err(e);
        },
    };
    if !Policy::IsSelfOrAdmin.allows(&claims, student_id) {
        return Err(BabibappError::with_msg(ErrorKind::Forbidden, "access only for admins"));
    }
    proof {
        lemma_update_student_finds(
            store@.students,
            store@.next_student_id,
            student_id,
            |sv: StudentV| student_with_email(sv, form.email@),
        );
    }
    match store.reset_student_email(student_id, &form.email) {
        None => Err(BabibappError::with_msg(ErrorKind::NotFound, "no student with this id")),
        Some(s) => Ok(s),
    }
}

/// Reset a student's password from an already hashed payload: the account
/// itself or an admin.
pub fn reset_password_hashed(
    store: &mut Store,
    auth_header: Option<&str>,
    secret: &str,
    now: i64,
    student_id: i32,
    password_hash: &String,
) -> (r: Result<Student, BabibappError>)
    requires
        old(store).wf(),
    ensures
        final(store).wf(),
        (res_view(r), final(store)@) == spec_reset_password(
            old(store)@,
            spec_authenticate(view_opt_str(auth_header), secret@, now),
            student_id,
            password_hash@,
        ),
{
    let claims = match require_auth(auth_header, secret, now) {
        Ok(c) => c,
        Err(e) => {
            return Err(e);
        },
    };
    if !Policy::IsSelfOrAdmin.allows(&claims, student_id) {
        return Err(BabibappError::with_msg(ErrorKind::Forbidden, "access only for admins"));
    }
    proof {
        lemma_update_student_finds(
            store@.students,
            store@.next_student_id,
            student_id,
            |sv: StudentV| student_with_password(sv, password_hash@),
        );
    }
    match store.reset_student_password(student_id, password_hash) {
        None => Err(BabibappError::with_msg(ErrorKind::NotFound, "no student with this id")),
        Some(s) => Ok(s),
    }
}

/// Reset a student's password: the account itself or an admin. The plain
/// password is hashed first; the stored hash is the one the result
/// carries, and the presented password verifies against it.
pub fn reset_password(
    store: &mut Store,
    auth_header: Option<&str>,
    secret: &str,
    now: i64,
    student_id: i32,
    form: &PasswordWrapper,
) -> (r: Result<Student, BabibappError>)
    requires
        old(store).wf(),
    ensures
        final(store).wf(),
        match spec_authenticate(view_opt_str(auth_header), secret@, now) {
            None => r is Err && (r->Err_0).kind == ErrorKind::Unauthenticated && final(store)@
                == old(store)@,
            Some(c) => if !policy_allows(Policy::IsSelfOrAdmin, c, student_id) {
                r is Err && (r->Err_0).kind == ErrorKind::Forbidden && final(store)@ == old(
                    store,
                )@
            } else if !has_student(old(store)@.students, student_id) {
                r is Err && (r->Err_0).kind == ErrorKind::NotFound && final(store)@ == old(
                    store,
                )@
            } else {
                r is Ok && bcrypt_verified(form.password@, (r->Ok_0)@.password_hash) && (
                res_view(r), final(store)@) == spec_reset_password(
                    old(store)@,
                    spec_authenticate(view_opt_str(auth_header), secret@, now),
                    student_id,
                    (r->Ok_0)@.password_hash,
                )
            },
        },
{
    let claims = match require_auth(auth_header, secret, now) {
        Ok(c) => c,
        Err(e) => {
            return Err(e);
        },
    };
    if !Policy::IsSelfOrAdmin.allows(&claims, student_id) {
        return Err(BabibappError::with_msg(ErrorKind::Forbidden, "access only for admins"));
    }
    let hashed = match hash_password(&form.password) {
        Ok(h) => h,
        Err(e) => {
            return Err(e);
        },
    };
    reset_password_hashed(store, auth_header, secret, now, student_id, &hashed)
}

/// Reset a student's name: admin-only, even for the account itself.
pub fn reset_name(
    store: &mut Store,
    auth_header: Option<&str>,
    secret: &str,
    now: i64,
    student_id: i32,
    form: &NameWrapper,
) -> (r: Result<Student, BabibappError>)
    requires
        old(store).wf(),
    ensures
        final(store).wf(),
        (res_view(r), final(store)@) == spec_reset_name(
            old(store)@,
            spec_authenticate(view_opt_str(auth_header), secret@, now),
            student_id,
            form.first_name@,
            form.last_name@,
        ),
{
    let claims = match require_auth(auth_header, secret, now) {
        Ok(c) => c,
        Err(e) => {
            return Err(e);
        },
    };
    if !Policy::IsAdmin.allows(&claims, student_id) {
        return Err(BabibappError::with_msg(ErrorKind::Forbidden, "access only for admins"));
    }
    proof {
        lemma_update_student_finds(
            store@.students,
            store@.next_student_id,
            student_id,
            |sv: StudentV| student_with_name(sv, form.first_name@, form.last_name@),
        );
    }
    match store.reset_student_name(student_id, &form.first_name, &form.last_name) {
        None => Err(BabibappError::with_msg(ErrorKind::NotFound, "no student with this id")),
        Some(s) => Ok(s),
    }
}

/// Grant a student admin privileges: admin-only.
pub fn make_admin(
    store: &mut Store,
    auth_header: Option<&str>,
    secret: &str,
    now: i64,
    student_id: i32,
) -> (r: Result<Student, BabibappError>)
    requires
        old(store).wf(),
    ensures
        final(store).wf(),
        (res_view(r), final(store)@) == spec_make_admin(
            old(store)@,
            spec_authenticate(view_opt_str(auth_header), secret@, now),
            student_id,
        ),
{
    let claims = match require_auth(auth_header, secret, now) {
        Ok(c) => c,
        Err(e) => {
            return Err(e);
        },
    };
    if !Policy::IsAdmin.allows(&claims, student_id) {
        return Err(BabibappError::with_msg(ErrorKind::Forbidden, "access only for admins"));
    }
    proof {
        lemma_update_student_finds(
            store@.students,
            store@.next_student_id,
            student_id,
            |sv: StudentV| student_as_admin(sv),
        );
    }
    match store.make_student_admin(student_id) {
        None => Err(BabibappError::with_msg(ErrorKind::NotFound, "no student with this id")),
        Some(s) => Ok(s),
    }
}

/// Replace every field but the id of a student, from an already hashed
/// payload: admin-only.
pub fn full_reset_hashed(
    store: &mut Store,
    auth_header: Option<&str>,
    secret: &str,
    now: i64,
    student_id: i32,
    form: &RegisterStudent,
    password_hash: &String,
) -> (r: Result<Student, BabibappError>)
    requires
        old(store).wf(),
    ensures
        final(store).wf(),
        (res_view(r), final(store)@) == spec_full_reset(
            old(store)@,
            spec_authenticate(view_opt_str(auth_header), secret@, now),
            student_id,
            form.email@,
            form.first_name@,
            form.last_name@,
            password_hash@,
            form.admin,
        ),
{
    let claims = match require_auth(auth_header, secret, now) {
        Ok(c) => c,
        Err(e) => {
            return Err(e);
        },
    };
    if !Policy::IsAdmin.allows(&claims, student_id) {
        return Err(BabibappError::with_msg(ErrorKind::Forbidden, "access only for admins"));
    }
    let admin = match form.admin {
        Some(b) => b,
        None => false,
    };
    proof {
        lemma_update_student_finds(
            store@.students,
            store@.next_student_id,
            student_id,
            |sv: StudentV|
                student_with_all(
                    sv,
                    form.email@,
                    form.first_name@,
                    form.last_name@,
                    password_hash@,
                    spec_admin_flag(form.admin),
                ),
        );
    }
    match store.full_reset_student(
        student_id,
        &form.email,
        &form.first_name,
        &form.last_name,
        password_hash,
        admin,
    ) {
        None => Err(BabibappError::with_msg(ErrorKind::NotFound, "no student with this id")),
        Some(s) => Ok(s),
    }
}

/// Replace every field but the id of a student: admin-only. The plain
/// password is hashed first; the stored hash is the one the result
/// carries, and the presented password verifies against it.
pub fn full_reset(
    store: &mut Store,
    auth_header: Option<&str>,
    secret: &str,
    now: i64,
    student_id: i32,
    form: &RegisterStudent,
) -> (r: Result<Student, BabibappError>)
    requires
        old(store).wf(),
    ensures
        final(store).wf(),
        match spec_authenticate(view_opt_str(auth_header), secret@, now) {
            None => r is Err && (r->Err_0).kind == ErrorKind::Unauthenticated && final(store)@
                == old(store)@,
            Some(c) => if !policy_allows(Policy::IsAdmin, c, student_id) {
                r is Err && (r->Err_0).kind == ErrorKind::Forbidden && final(store)@ == old(
                    store,
                )@
            } else if !has_student(old(store)@.students, student_id) {
                r is Err && (r->Err_0).kind == ErrorKind::NotFound && final(store)@ == old(
                    store,
                )@
            } else {
                r is Ok && bcrypt_verified(form.password@, (r->Ok_0)@.password_hash) && (
                res_view(r), final(store)@) == spec_full_reset(
                    old(store)@,
                    spec_authenticate(view_opt_str(auth_header), secret@, now),
                    student_id,
                    form.email@,
                    form.first_name@,
                    form.last_name@,
                    (r->Ok_0)@.password_hash,
                    form.admin,
                )
            },
        },
{
    let claims = match require_auth(auth_header, secret, now) {
        Ok(c) => c,
        Err(e) => {
            return Err(e);
        },
    };
    if !Policy::IsAdmin.allows(&claims, student_id) {
        return Err(BabibappError::with_msg(ErrorKind::Forbidden, "access only for admins"));
    }
    let hashed = match hash_password(&form.password) {
        Ok(h) => h,
        Err(e) => {
            return Err(e);
        },
    };
    full_reset_hashed(store, auth_header, secret, now, student_id, form, &hashed)
}

/// Delete a student: the account itself or an admin; the deleted row is
/// returned.
pub fn delete(
    store: &mut Store,
    auth_header: Option<&str>,
    secret: &str,
    now: i64,
    student_id: i32,
) -> (r: Result<Student, BabibappError>)
    requires
        old(store).wf(),
    ensures
        final(store).wf(),
        (res_view(r), final(store)@) == spec_delete(
            old(store)@,
            spec_authenticate(view_opt_str(auth_header), secret@, now),
            student_id,
        ),
{
    let claims = match require_auth(auth_header, secret, now) {
        Ok(c) => c,
        Err(e) => {
            return Err(e);
        },
    };
    if !Policy::IsSelfOrAdmin.allows(&claims, student_id) {
        return Err(BabibappError::with_msg(ErrorKind::Forbidden, "access only for admins"));
    }
    match store.delete_student(student_id) {
        None => Err(BabibappError::with_msg(ErrorKind::NotFound, "no student with this id")),
        Some(s) => Ok(s),
    }
}

/// Ownership-gated mutation, the denial half: a caller without admin
/// privileges asking to reset any student's name — their own included —
/// gets `Forbidden`, and the store is untouched.
pub proof fn lemma_reset_name_requires_admin(
    s: StoreV,
    c: Claims,
    student_id: i32,
    first: Seq<char>,
    last: Seq<char>,
)
    requires
        !c.admin,
    ensures
        spec_reset_name(s, Some(c), student_id, first, last) == (
            Err::<StudentV, ErrorKind>(ErrorKind::Forbidden),
            s,
        ),
{
}

/// Ownership-gated mutation, the admin half: an admin's name reset of an
/// existing student succeeds, and a subsequent read — by any caller —
/// finds the new name.
pub proof fn lemma_reset_name_admin_effect(
    s: StoreV,
    c: Claims,
    viewer: Claims,
    student_id: i32,
    first: Seq<char>,
    last: Seq<char>,
)
    requires
        c.admin,
        wf_students(s.students, s.next_student_id),
        has_student(s.students, student_id),
    ensures
        spec_reset_name(s, Some(c), student_id, first, last).0 is Ok,
        find_student(spec_reset_name(s, Some(c), student_id, first, last).1.students, student_id)
            is Some,
        find_student(
            spec_reset_name(s, Some(c), student_id, first, last).1.students,
            student_id,
        )->0.first_name == first,
        find_student(
            spec_reset_name(s, Some(c), student_id, first, last).1.students,
            student_id,
        )->0.last_name == last,
        spec_get_student(
            spec_reset_name(s, Some(c), student_id, first, last).1,
            Some(viewer),
            student_id,
        ) is Ok,
{
    lemma_update_student_finds(
        s.students,
        s.next_student_id,
        student_id,
        |sv: StudentV| student_with_name(sv, first, last),
    );
}

/// The self-service boundary: a non-admin account may reset its own email,
/// but its own name reset is refused — the name is an admin-only field
/// even when the caller and the target coincide.
pub proof fn lemma_self_service_boundary(
    s: StoreV,
    c: Claims,
    email: Seq<char>,
    first: Seq<char>,
    last: Seq<char>,
)
    requires
        !c.admin,
        wf_students(s.students, s.next_student_id),
        has_student(s.students, c.id),
    ensures
        spec_reset_email(s, Some(c), c.id, email).0 is Ok,
        spec_reset_name(s, Some(c), c.id, first, last) == (
            Err::<StudentV, ErrorKind>(ErrorKind::Forbidden),
            s,
        ),
{
}

} // verus!
