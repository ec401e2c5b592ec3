//! Student accounts and their two redaction levels.

use vstd::prelude::*;

verus! {

/// A stored student account. The account's owner is itself.
#[derive(Debug, Clone)]
pub struct Student {
    pub id: i32,
    pub email: String,
    pub first_name: String,
    pub last_name: String,
    pub password_hash: String,
    pub admin: bool,
}

/// The ghost value of a [`Student`].
pub ghost struct StudentV {
    pub id: i32,
    pub email: Seq<char>,
    pub first_name: Seq<char>,
    pub last_name: Seq<char>,
    pub password_hash: Seq<char>,
    pub admin: bool,
}

impl View for Student {
    type V = StudentV;

    open spec fn view(&self) -> StudentV {
        StudentV {
            id: self.id,
            email: self.email@,
            first_name: self.first_name@,
            last_name: self.last_name@,
            password_hash: self.password_hash@,
            admin: self.admin,
        }
    }
}

impl Student {
    /// A field-by-field copy. (A derived `Clone` carries no specification,
    /// so the copy is spelled out.)
    pub fn duplicate(&self) -> (r: Student)
        ensures
            r@ == self@,
    {
        Student {
            id: self.id,
            email: self.email.clone(),
            first_name: self.first_name.clone(),
            last_name: self.last_name.clone(),
            password_hash: self.password_hash.clone(),
            admin: self.admin,
        }
    }
}

/// A student row as handed to the store for insertion; the store assigns the
/// id, and a missing admin flag means a regular account.
#[derive(Debug, Clone)]
pub struct NewStudent {
    pub email: String,
    pub first_name: String,
    pub last_name: String,
    pub password_hash: String,
    pub admin: Option<bool>,
}

/// The registration payload: like [`NewStudent`], but carrying the plain
/// password that the login flow will hash before storing.
#[derive(Debug, Clone)]
pub struct RegisterStudent {
    pub email: String,
    pub first_name: String,
    pub last_name: String,
    pub password: String,
    pub admin: Option<bool>,
}

/// The login payload.
#[derive(Debug, Clone)]
pub struct LoginStudent {
    pub email: String,
    pub password: String,
}

/// The redacted shape of an account: only the id and the name, never the
/// email or the password hash.
#[derive(Debug, Clone)]
pub struct LimitedViewStudent {
    pub id: i32,
    pub first_name: String,
    pub last_name: String,
}

/// The ghost value of a [`LimitedViewStudent`].
pub ghost struct LimitedViewStudentV {
    pub id: i32,
    pub first_name: Seq<char>,
    pub last_name: Seq<char>,
}

impl View for LimitedViewStudent {
    type V = LimitedViewStudentV;

    open spec fn view(&self) -> LimitedViewStudentV {
        LimitedViewStudentV {
            id: self.id,
            first_name: self.first_name@,
            last_name: self.last_name@,
        }
    }
}

/// What a read of an account returns: the full row for the owner or an
/// admin, the redacted shape for everyone else.
#[derive(Debug, Clone)]
pub enum StudentView {
    Limited(LimitedViewStudent),
    Full(Student),
}

/// The ghost value of a [`StudentView`].
pub ghost enum StudentViewV {
    Limited(LimitedViewStudentV),
    Full(StudentV),
}

impl View for StudentView {
    type V = StudentViewV;

    open spec fn view(&self) -> StudentViewV {
        match self {
            StudentView::Limited(s) => StudentViewV::Limited(s@),
            StudentView::Full(s) => StudentViewV::Full(s@),
        }
    }
}

} // verus!
