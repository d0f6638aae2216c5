//! Teachers and the subjects linked to them.
use crate::guardian::{like_pattern, search_pattern};
use vstd::prelude::*;

verus! {

/// A teacher, as kept before teachers became staff members.
#[derive(Debug, Clone, PartialEq)]
pub struct Teacher {
    pub id: i32,
    pub name: String,
    pub phone: String,
    pub address: String,
    pub salary: i32,
    pub photo: Option<String>,
}

impl Teacher {
    pub fn new(
        id: i32,
        name: &str,
        phone: &str,
        address: &str,
        salary: i32,
        photo: Option<String>,
    ) -> (r: Teacher)
        ensures
            r.id == id && r.name@ == name@ && r.phone@ == phone@ && r.address@ == address@,
            r.salary == salary && r.photo == photo,
    {
        Teacher {
            id,
            name: name.to_owned(),
            phone: phone.to_owned(),
            address: address.to_owned(),
            salary,
            photo,
        }
    }

    /// The pattern that a search for `term` matches names and phones with; an empty term
    /// searches for nothing.
    pub fn search_pattern(term: &str) -> (r: Option<String>)
        ensures
            term@.len() == 0 ==> r is None,
            term@.len() > 0 ==> (r matches Some(p) && p@ == like_pattern(term@)),
    {
        if term.unicode_len() == 0 {
            None
        } else {
            Some(search_pattern(term))
        }
    }
}

/// A subject linked to a teacher.
#[derive(Debug, Clone, Copy, PartialEq, Eq, Structural)]
pub struct TeacherSubject {
    pub id: i32,
    pub teacher_id: i32,
    pub subject_id: i32,
}

impl TeacherSubject {
    pub fn new(id: i32, teacher_id: i32, subject_id: i32) -> (r: TeacherSubject)
        ensures
            r == (TeacherSubject { id, teacher_id, subject_id }),
    {
        TeacherSubject { id, teacher_id, subject_id }
    }
}

} // verus!
