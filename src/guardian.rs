//! Guardians and the links between students and the people related to them.
use crate::store::{
    SqlCell, Statement, int_cell, int_value, opt_text_cell, opt_text_value, text_cell, text_value,
};
use vstd::prelude::*;

verus! {

/// A guardian; no two guardians share a phone number.
#[derive(Debug, Clone, PartialEq)]
pub struct Guardian {
    pub id: i32,
    pub name: String,
    pub phone: String,
    pub address: Option<String>,
    /// A picture, as base64 text.
    pub photo: Option<String>,
}

/// The pattern that matches any text holding `query`.
pub open spec fn like_pattern(query: Seq<char>) -> Seq<char> {
    "%"@ + query + "%"@
}

/// The pattern that matches any text holding `query`.
pub fn search_pattern(query: &str) -> (r: String)
    ensures
        r@ == like_pattern(query@),
{
    let mut p = String::from_str("%");
    p.append(query);
    p.append("%");
    p
}

impl Guardian {
    pub fn new(
        id: i32,
        name: &str,
        phone: &str,
        address: Option<String>,
        photo: Option<String>,
    ) -> (r: Guardian)
        ensures
            r.id == id && r.name@ == name@ && r.phone@ == phone@,
            r.address == address && r.photo == photo,
    {
        Guardian { id, name: name.to_owned(), phone: phone.to_owned(), address, photo }
    }
}

/// A link between a student and a related person, such as a guardian.
#[derive(Debug, Clone, PartialEq)]
pub struct StudentRelationship {
    pub id: i32,
    pub student_id: i32,
    pub related_id: i32,
    pub relationship: Option<String>,
}

impl StudentRelationship {
    pub fn new(id: i32, student_id: i32, related_id: i32, relationship: Option<String>) -> (r:
        StudentRelationship)
        ensures
            r == (StudentRelationship { id, student_id, related_id, relationship }),
    {
        StudentRelationship { id, student_id, related_id, relationship }
    }
}

pub const GUARDIAN_INSERT_SQL: &'static str =
    "INSERT INTO guardians (name, phone, address, photo) VALUES (?1, ?2, ?3, ?4)";

pub const GUARDIAN_SELECT_SQL: &'static str =
    "SELECT id, name, phone, address, photo FROM guardians";

pub const GUARDIAN_SEARCH_SQL: &'static str =
    "SELECT id, name, phone, address, photo FROM guardians WHERE name LIKE ?1 OR phone LIKE ?1 LIMIT 15";

pub const GUARDIAN_UPDATE_SQL: &'static str =
    "UPDATE guardians SET name = ?1, phone = ?2, address = ?3, photo = ?4 WHERE id = ?5";

pub const GUARDIAN_DELETE_SQL: &'static str = "DELETE FROM guardians WHERE id = ?1";

impl Guardian {
    /// Adds the record's fields as a new row; the database assigns its id.
    pub fn insert_statement(g: &Guardian) -> (r: Statement)
        ensures
            r@ == (
                GUARDIAN_INSERT_SQL@,
                seq![
                    text_cell(g.name@),
                    text_cell(g.phone@),
                    opt_text_cell(g.address),
                    opt_text_cell(g.photo),
                ],
            ),
    {
        let mut st = Statement::with_text(GUARDIAN_INSERT_SQL);
        st.push(text_value(g.name.as_str()));
        st.push(text_value(g.phone.as_str()));
        st.push(opt_text_value(&g.address));
        st.push(opt_text_value(&g.photo));
        st
    }

    /// Every guardian.
    pub fn select_all_statement() -> (r: Statement)
        ensures
            r@ == (GUARDIAN_SELECT_SQL@, Seq::<SqlCell>::empty()),
    {
        let mut st = Statement::with_text(GUARDIAN_SELECT_SQL);
        st
    }

    /// At most fifteen guardians whose name or phone holds `query`.
    pub fn search_statement(query: &str) -> (r: Statement)
        ensures
            r@ == (GUARDIAN_SEARCH_SQL@, seq![text_cell(like_pattern(query@))]),
    {
        let pattern = search_pattern(query);
        let mut st = Statement::with_text(GUARDIAN_SEARCH_SQL);
        st.push(text_value(pattern.as_str()));
        st
    }

    /// Writes the record's fields over the row with the record's id.
    pub fn update_statement(g: &Guardian) -> (r: Statement)
        ensures
            r@ == (
                GUARDIAN_UPDATE_SQL@,
                seq![
                    text_cell(g.name@),
                    text_cell(g.phone@),
                    opt_text_cell(g.address),
                    opt_text_cell(g.photo),
                    int_cell(g.id),
                ],
            ),
    {
        let mut st = Statement::with_text(GUARDIAN_UPDATE_SQL);
        st.push(text_value(g.name.as_str()));
        st.push(text_value(g.phone.as_str()));
        st.push(opt_text_value(&g.address));
        st.push(opt_text_value(&g.photo));
        st.push(int_value(g.id));
        st
    }

    /// Removes the row with the given id.
    pub fn delete_statement(id: i32) -> (r: Statement)
        ensures
            r@ == (GUARDIAN_DELETE_SQL@, seq![int_cell(id)]),
    {
        let mut st = Statement::with_text(GUARDIAN_DELETE_SQL);
        st.push(int_value(id));
        st
    }
}

pub const RELATIONSHIP_INSERT_SQL: &'static str =
    "INSERT INTO student_relationships (student_id, related_id, relationship) VALUES (?1, ?2, ?3)";

pub const RELATIONSHIP_SELECT_SQL: &'static str =
    "SELECT id, student_id, related_id, relationship FROM student_relationships";

pub const RELATIONSHIP_UPDATE_SQL: &'static str =
    "UPDATE student_relationships SET student_id = ?1, related_id = ?2, relationship = ?3 WHERE id = ?4";

pub const RELATIONSHIP_DELETE_SQL: &'static str = "DELETE FROM student_relationships WHERE id = ?1";

impl StudentRelationship {
    /// Adds the record's fields as a new row; the database assigns its id.
    pub fn insert_statement(rel: &StudentRelationship) -> (r: Statement)
        ensures
            r@ == (
                RELATIONSHIP_INSERT_SQL@,
                seq![
                    int_cell(rel.student_id),
                    int_cell(rel.related_id),
                    opt_text_cell(rel.relationship),
                ],
            ),
    {
        let mut st = Statement::with_text(RELATIONSHIP_INSERT_SQL);
        st.push(int_value(rel.student_id));
        st.push(int_value(rel.related_id));
        st.push(opt_text_value(&rel.relationship));
        st
    }

    /// Every link between a student and a related person.
    pub fn select_all_statement() -> (r: Statement)
        ensures
            r@ == (RELATIONSHIP_SELECT_SQL@, Seq::<SqlCell>::empty()),
    {
        let mut st = Statement::with_text(RELATIONSHIP_SELECT_SQL);
        st
    }

    /// Writes the record's fields over the row with the record's id.
    pub fn update_statement(rel: &StudentRelationship) -> (r: Statement)
        ensures
            r@ == (
                RELATIONSHIP_UPDATE_SQL@,
                seq![
                    int_cell(rel.student_id),
                    int_cell(rel.related_id),
                    opt_text_cell(rel.relationship),
                    int_cell(rel.id),
                ],
            ),
    {
        let mut st = Statement::with_text(RELATIONSHIP_UPDATE_SQL);
        st.push(int_value(rel.student_id));
        st.push(int_value(rel.related_id));
        st.push(opt_text_value(&rel.relationship));
        st.push(int_value(rel.id));
        st
    }

    /// Removes the row with the given id.
    pub fn delete_statement(id: i32) -> (r: Statement)
        ensures
            r@ == (RELATIONSHIP_DELETE_SQL@, seq![int_cell(id)]),
    {
        let mut st = Statement::with_text(RELATIONSHIP_DELETE_SQL);
        st.push(int_value(id));
        st
    }
}

} // verus!
