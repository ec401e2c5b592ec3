//! Teachers. They have no owner; only admins may change them.

use vstd::prelude::*;

verus! {

/// A stored teacher.
#[derive(Debug, Clone)]
pub struct Teacher {
    pub id: i32,
    pub name: String,
    pub prefix: String,
}

/// The ghost value of a [`Teacher`].
pub ghost struct TeacherV {
    pub id: i32,
    pub name: Seq<char>,
    pub prefix: Seq<char>,
}

impl View for Teacher {
    type V = TeacherV;

    open spec fn view(&self) -> TeacherV {
        TeacherV { id: self.id, name: self.name@, prefix: self.prefix@ }
    }
}

impl Teacher {
    /// A field-by-field copy. (A derived `Clone` carries no specification,
    /// so the copy is spelled out.)
    pub fn duplicate(&self) -> (r: Teacher)
        ensures
            r@ == self@,
    {
        Teacher { id: self.id, name: self.name.clone(), prefix: self.prefix.clone() }
    }
}

/// A teacher as handed to the store for insertion; the store assigns the id.
#[derive(Debug, Clone)]
pub struct NewTeacher {
    pub name: String,
    pub prefix: String,
}

} // verus!
