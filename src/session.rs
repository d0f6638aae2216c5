//! Sessions: the academic years that classes and students belong to.
use crate::date::Date;
use crate::store::{
    SqlCell, Statement, day_cell, day_value, int_cell, int_value, text_cell, text_value,
};
use vstd::prelude::*;

verus! {

/// An academic year; its name is unique.
#[derive(Debug, Clone, PartialEq)]
pub struct Session {
    pub id: i32,
    pub name: String,
    pub start_date: Date,
    pub end_date: Date,
}

impl Session {
    pub fn new(id: i32, name: &str, start_date: Date, end_date: Date) -> (r: Session)
        ensures
            r.id == id && r.name@ == name@ && r.start_date == start_date && r.end_date == end_date,
    {
        Session { id, name: name.to_owned(), start_date, end_date }
    }
}

pub const SESSION_INSERT_SQL: &'static str =
    "INSERT INTO sessions (name, start_date, end_date) VALUES (?1, ?2, ?3)";

pub const SESSION_SELECT_SQL: &'static str = "SELECT id, name, start_date, end_date FROM sessions";

pub const SESSION_SELECT_BY_ID_SQL: &'static str =
    "SELECT id, name, start_date, end_date FROM sessions WHERE id = ?1";

pub const SESSION_UPDATE_SQL: &'static str =
    "UPDATE sessions SET name = ?1, start_date = ?2, end_date = ?3 WHERE id = ?4";

pub const SESSION_DELETE_SQL: &'static str = "DELETE FROM sessions WHERE id = ?1";

impl Session {
    /// Adds the record's fields as a new row; the database assigns its id.
    pub fn insert_statement(s: &Session) -> (r: Statement)
        ensures
            r@ == (
                SESSION_INSERT_SQL@,
                seq![
                    text_cell(s.name@),
                    day_cell(s.start_date),
                    day_cell(s.end_date),
                ],
            ),
    {
        let mut st = Statement::with_text(SESSION_INSERT_SQL);
        st.push(text_value(s.name.as_str()));
        st.push(day_value(s.start_date));
        st.push(day_value(s.end_date));
        st
    }

    /// Every session.
    pub fn select_all_statement() -> (r: Statement)
        ensures
            r@ == (SESSION_SELECT_SQL@, Seq::<SqlCell>::empty()),
    {
        let mut st = Statement::with_text(SESSION_SELECT_SQL);
        st
    }

    /// The session with the given id.
    pub fn select_by_id_statement(id: i32) -> (r: Statement)
        ensures
            r@ == (SESSION_SELECT_BY_ID_SQL@, seq![int_cell(id)]),
    {
        let mut st = Statement::with_text(SESSION_SELECT_BY_ID_SQL);
        st.push(int_value(id));
        st
    }

    /// Writes the record's fields over the row with the record's id.
    pub fn update_statement(s: &Session) -> (r: Statement)
        ensures
            r@ == (
                SESSION_UPDATE_SQL@,
                seq![
                    text_cell(s.name@),
                    day_cell(s.start_date),
                    day_cell(s.end_date),
                    int_cell(s.id),
                ],
            ),
    {
        let mut st = Statement::with_text(SESSION_UPDATE_SQL);
        st.push(text_value(s.name.as_str()));
        st.push(day_value(s.start_date));
        st.push(day_value(s.end_date));
        st.push(int_value(s.id));
        st
    }

    /// Removes the row with the given id.
    pub fn delete_statement(id: i32) -> (r: Statement)
        ensures
            r@ == (SESSION_DELETE_SQL@, seq![int_cell(id)]),
    {
        let mut st = Statement::with_text(SESSION_DELETE_SQL);
        st.push(int_value(id));
        st
    }
}

} // verus!
