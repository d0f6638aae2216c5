//! Subjects and the subjects that each class is taught.
use crate::store::{
    SqlCell, Statement, flag_cell, flag_value, int_cell, int_value, text_cell, text_value,
};
use vstd::prelude::*;

verus! {

/// A subject; its name and its code are each unique.
#[derive(Debug, Clone, PartialEq)]
pub struct Subject {
    pub id: i32,
    pub name: String,
    pub code: i32,
}

impl Subject {
    pub fn new(id: i32, name: &str, code: i32) -> (r: Subject)
        ensures
            r.id == id && r.name@ == name@ && r.code == code,
    {
        Subject { id, name: name.to_owned(), code }
    }
}

/// A subject taught to a class, mandatory or optional; a class has each subject once.
#[derive(Debug, Clone, Copy, PartialEq, Eq, Structural)]
pub struct ClassSubject {
    pub id: i32,
    pub class_id: i32,
    pub subject_id: i32,
    pub is_mandatory: bool,
}

impl ClassSubject {
    pub fn new(id: i32, class_id: i32, subject_id: i32, is_mandatory: bool) -> (r: ClassSubject)
        ensures
            r == (ClassSubject { id, class_id, subject_id, is_mandatory }),
    {
        ClassSubject { id, class_id, subject_id, is_mandatory }
    }
}

pub const SUBJECT_INSERT_SQL: &'static str = "INSERT INTO subjects (name, code) VALUES (?1, ?2)";

pub const SUBJECT_SELECT_SQL: &'static str = "SELECT id, name, code FROM subjects";

pub const SUBJECT_UPDATE_SQL: &'static str =
    "UPDATE subjects SET name = ?1, code = ?2 WHERE id = ?3";

pub const SUBJECT_DELETE_SQL: &'static str = "DELETE FROM subjects WHERE id = ?";

impl Subject {
    /// Adds the record's fields as a new row; the database assigns its id.
    pub fn insert_statement(s: &Subject) -> (r: Statement)
        ensures
            r@ == (SUBJECT_INSERT_SQL@, seq![text_cell(s.name@), int_cell(s.code)]),
    {
        let mut st = Statement::with_text(SUBJECT_INSERT_SQL);
        st.push(text_value(s.name.as_str()));
        st.push(int_value(s.code));
        st
    }

    /// Every subject.
    pub fn select_all_statement() -> (r: Statement)
        ensures
            r@ == (SUBJECT_SELECT_SQL@, Seq::<SqlCell>::empty()),
    {
        let mut st = Statement::with_text(SUBJECT_SELECT_SQL);
        st
    }

    /// Writes the record's fields over the row with the record's id.
    pub fn update_statement(s: &Subject) -> (r: Statement)
        ensures
            r@ == (SUBJECT_UPDATE_SQL@, seq![text_cell(s.name@), int_cell(s.code), int_cell(s.id)]),
    {
        let mut st = Statement::with_text(SUBJECT_UPDATE_SQL);
        st.push(text_value(s.name.as_str()));
        st.push(int_value(s.code));
        st.push(int_value(s.id));
        st
    }

    /// Removes the row with the given id.
    pub fn delete_statement(id: i32) -> (r: Statement)
        ensures
            r@ == (SUBJECT_DELETE_SQL@, seq![int_cell(id)]),
    {
        let mut st = Statement::with_text(SUBJECT_DELETE_SQL);
        st.push(int_value(id));
        st
    }
}

pub const CLASS_SUBJECT_INSERT_SQL: &'static str =
    "INSERT INTO class_subjects (class_id, subject_id, is_mandatory) VALUES (?1, ?2, ?3)";

pub const CLASS_SUBJECT_SELECT_BY_CLASS_SQL: &'static str =
    "SELECT id, class_id, subject_id, is_mandatory FROM class_subjects WHERE class_id = ?1";

pub const CLASS_SUBJECT_SELECT_SQL: &'static str =
    "SELECT id, class_id, subject_id, is_mandatory FROM class_subjects";

pub const CLASS_SUBJECT_UPDATE_SQL: &'static str =
    "UPDATE class_subjects SET class_id = ?1, subject_id = ?2, is_mandatory = ?3 WHERE id = ?4";

pub const CLASS_SUBJECT_DELETE_SQL: &'static str = "DELETE FROM class_subjects WHERE id = ?1";

impl ClassSubject {
    /// Adds the record's fields as a new row; the database assigns its id.
    pub fn insert_statement(cs: &ClassSubject) -> (r: Statement)
        ensures
            r@ == (
                CLASS_SUBJECT_INSERT_SQL@,
                seq![
                    int_cell(cs.class_id),
                    int_cell(cs.subject_id),
                    flag_cell(cs.is_mandatory),
                ],
            ),
    {
        let mut st = Statement::with_text(CLASS_SUBJECT_INSERT_SQL);
        st.push(int_value(cs.class_id));
        st.push(int_value(cs.subject_id));
        st.push(flag_value(cs.is_mandatory));
        st
    }

    /// The subjects linked to a class.
    pub fn select_by_class_statement(class_id: i32) -> (r: Statement)
        ensures
            r@ == (CLASS_SUBJECT_SELECT_BY_CLASS_SQL@, seq![int_cell(class_id)]),
    {
        let mut st = Statement::with_text(CLASS_SUBJECT_SELECT_BY_CLASS_SQL);
        st.push(int_value(class_id));
        st
    }

    /// Every link between a class and a subject.
    pub fn select_all_statement() -> (r: Statement)
        ensures
            r@ == (CLASS_SUBJECT_SELECT_SQL@, Seq::<SqlCell>::empty()),
    {
        let mut st = Statement::with_text(CLASS_SUBJECT_SELECT_SQL);
        st
    }

    /// Writes the record's fields over the row with the record's id.
    pub fn update_statement(cs: &ClassSubject) -> (r: Statement)
        ensures
            r@ == (
                CLASS_SUBJECT_UPDATE_SQL@,
                seq![
                    int_cell(cs.class_id),
                    int_cell(cs.subject_id),
                    flag_cell(cs.is_mandatory),
                    int_cell(cs.id),
                ],
            ),
    {
        let mut st = Statement::with_text(CLASS_SUBJECT_UPDATE_SQL);
        st.push(int_value(cs.class_id));
        st.push(int_value(cs.subject_id));
        st.push(flag_value(cs.is_mandatory));
        st.push(int_value(cs.id));
        st
    }

    /// Removes the row with the given id.
    pub fn delete_statement(id: i32) -> (r: Statement)
        ensures
            r@ == (CLASS_SUBJECT_DELETE_SQL@, seq![int_cell(id)]),
    {
        let mut st = Statement::with_text(CLASS_SUBJECT_DELETE_SQL);
        st.push(int_value(id));
        st
    }
}

} // verus!
