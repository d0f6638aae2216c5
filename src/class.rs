//! Classes of a session and the sections a class is split into.
use crate::store::{SqlCell, Statement, int_cell, int_value, text_cell, text_value};
use vstd::prelude::*;

verus! {

/// A class of a session, with the fees it charges.
#[derive(Debug, Clone, PartialEq)]
pub struct Class {
    pub id: i32,
    pub name: String,
    pub level: i32,
    pub admission_fee: i32,
    pub monthly_fee: i32,
    pub readmission_fee: i32,
    pub session_id: i32,
}

impl Class {
    pub fn new(
        id: i32,
        name: &str,
        level: i32,
        admission_fee: i32,
        monthly_fee: i32,
        readmission_fee: i32,
        session_id: i32,
    ) -> (r: Class)
        ensures
            r.id == id && r.name@ == name@ && r.level == level,
            r.admission_fee == admission_fee && r.monthly_fee == monthly_fee,
            r.readmission_fee == readmission_fee && r.session_id == session_id,
    {
        Class {
            id,
            name: name.to_owned(),
            level,
            admission_fee,
            monthly_fee,
            readmission_fee,
            session_id,
        }
    }
}

/// A section of a class; its name is unique within the class.
#[derive(Debug, Clone, PartialEq)]
pub struct Section {
    pub id: i32,
    pub class_id: i32,
    pub name: String,
}

pub open spec fn adoption_sql() -> Seq<char> {
    "UPDATE students SET section_id = ?1 WHERE class_id = ?2 AND section_id IS NULL"@
}

impl Section {
    pub fn new(id: i32, class_id: i32, name: &str) -> (r: Section)
        ensures
            r.id == id && r.class_id == class_id && r.name@ == name@,
    {
        Section { id, class_id, name: name.to_owned() }
    }

    /// Once a class has its first section, the class's students without a section join it.
    /// Given the number of sections the class has after section `id` was added, the statement
    /// that moves them, where one is due.
    pub fn adoption_statement(section_count: i32, id: i32, class_id: i32) -> (r: Option<Statement>)
        ensures
            r is Some <==> section_count == 1,
            r matches Some(st) ==> st@ == (adoption_sql(), seq![int_cell(id), int_cell(class_id)]),
    {
        if section_count == 1 {
            let mut st = Statement::with_text(
                "UPDATE students SET section_id = ?1 WHERE class_id = ?2 AND section_id IS NULL",
            );
            st.push(int_value(id));
            st.push(int_value(class_id));
            Some(st)
        } else {
            None
        }
    }
}

pub const CLASS_INSERT_SQL: &'static str =
    "INSERT INTO classes (name, level, admission_fee, monthly_fee, readmission_fee, session_id) VALUES (?1, ?2, ?3, ?4, ?5, ?6)";

pub const CLASS_SELECT_BY_SESSION_SQL: &'static str =
    "SELECT id, name, level, admission_fee, monthly_fee, readmission_fee, session_id FROM classes WHERE session_id = ?1";

pub const CLASS_UPDATE_SQL: &'static str =
    "UPDATE classes SET name = ?1, level = ?2, admission_fee = ?3, monthly_fee = ?4, readmission_fee = ?5, session_id = ?6 WHERE id = ?7";

pub const CLASS_DELETE_SQL: &'static str = "DELETE FROM classes WHERE id = ?1";

impl Class {
    /// Adds the record's fields as a new row; the database assigns its id.
    pub fn insert_statement(c: &Class) -> (r: Statement)
        ensures
            r@ == (
                CLASS_INSERT_SQL@,
                seq![
                    text_cell(c.name@),
                    int_cell(c.level),
                    int_cell(c.admission_fee),
                    int_cell(c.monthly_fee),
                    int_cell(c.readmission_fee),
                    int_cell(c.session_id),
                ],
            ),
    {
        let mut st = Statement::with_text(CLASS_INSERT_SQL);
        st.push(text_value(c.name.as_str()));
        st.push(int_value(c.level));
        st.push(int_value(c.admission_fee));
        st.push(int_value(c.monthly_fee));
        st.push(int_value(c.readmission_fee));
        st.push(int_value(c.session_id));
        st
    }

    /// The classes of a session.
    pub fn select_by_session_statement(session_id: i32) -> (r: Statement)
        ensures
            r@ == (CLASS_SELECT_BY_SESSION_SQL@, seq![int_cell(session_id)]),
    {
        let mut st = Statement::with_text(CLASS_SELECT_BY_SESSION_SQL);
        st.push(int_value(session_id));
        st
    }

    /// Writes the record's fields over the row with the record's id.
    pub fn update_statement(c: &Class) -> (r: Statement)
        ensures
            r@ == (
                CLASS_UPDATE_SQL@,
                seq![
                    text_cell(c.name@),
                    int_cell(c.level),
                    int_cell(c.admission_fee),
                    int_cell(c.monthly_fee),
                    int_cell(c.readmission_fee),
                    int_cell(c.session_id),
                    int_cell(c.id),
                ],
            ),
    {
        let mut st = Statement::with_text(CLASS_UPDATE_SQL);
        st.push(text_value(c.name.as_str()));
        st.push(int_value(c.level));
        st.push(int_value(c.admission_fee));
        st.push(int_value(c.monthly_fee));
        st.push(int_value(c.readmission_fee));
        st.push(int_value(c.session_id));
        st.push(int_value(c.id));
        st
    }

    /// Removes the row with the given id.
    pub fn delete_statement(id: i32) -> (r: Statement)
        ensures
            r@ == (CLASS_DELETE_SQL@, seq![int_cell(id)]),
    {
        let mut st = Statement::with_text(CLASS_DELETE_SQL);
        st.push(int_value(id));
        st
    }
}

pub const SECTION_INSERT_SQL: &'static str =
    "INSERT INTO sections (class_id, name) VALUES (?1, ?2)";

pub const SECTION_COUNT_SQL: &'static str = "SELECT COUNT(*) FROM sections WHERE class_id = ?1";

pub const SECTION_SELECT_SQL: &'static str = "SELECT id, class_id, name FROM sections";

pub const SECTION_UPDATE_SQL: &'static str =
    "UPDATE sections SET class_id = ?1, name = ?2 WHERE id = ?3";

pub const SECTION_DELETE_SQL: &'static str = "DELETE FROM sections WHERE id = ?1";

impl Section {
    /// Adds the record's fields as a new row; the database assigns its id.
    pub fn insert_statement(s: &Section) -> (r: Statement)
        ensures
            r@ == (SECTION_INSERT_SQL@, seq![int_cell(s.class_id), text_cell(s.name@)]),
    {
        let mut st = Statement::with_text(SECTION_INSERT_SQL);
        st.push(int_value(s.class_id));
        st.push(text_value(s.name.as_str()));
        st
    }

    /// The number of sections of a class.
    pub fn count_in_class_statement(class_id: i32) -> (r: Statement)
        ensures
            r@ == (SECTION_COUNT_SQL@, seq![int_cell(class_id)]),
    {
        let mut st = Statement::with_text(SECTION_COUNT_SQL);
        st.push(int_value(class_id));
        st
    }

    /// Every section.
    pub fn select_all_statement() -> (r: Statement)
        ensures
            r@ == (SECTION_SELECT_SQL@, Seq::<SqlCell>::empty()),
    {
        let mut st = Statement::with_text(SECTION_SELECT_SQL);
        st
    }

    /// Writes the record's fields over the row with the record's id.
    pub fn update_statement(s: &Section) -> (r: Statement)
        ensures
            r@ == (
                SECTION_UPDATE_SQL@,
                seq![
                    int_cell(s.class_id),
                    text_cell(s.name@),
                    int_cell(s.id),
                ],
            ),
    {
        let mut st = Statement::with_text(SECTION_UPDATE_SQL);
        st.push(int_value(s.class_id));
        st.push(text_value(s.name.as_str()));
        st.push(int_value(s.id));
        st
    }

    /// Removes the row with the given id.
    pub fn delete_statement(id: i32) -> (r: Statement)
        ensures
            r@ == (SECTION_DELETE_SQL@, seq![int_cell(id)]),
    {
        let mut st = Statement::with_text(SECTION_DELETE_SQL);
        st.push(int_value(id));
        st
    }
}

} // verus!
