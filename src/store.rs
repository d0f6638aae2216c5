//! What the library hands to the database and what it makes of the answers.
use crate::date::Date;
use vstd::prelude::*;

verus! {

/// A value bound to a placeholder of a statement.
#[derive(Debug, Clone, PartialEq)]
pub enum SqlValue {
    Null,
    Integer(i64),
    Text(String),
    Day(Date),
}

/// What a placeholder value stands for.
pub enum SqlCell {
    Null,
    Integer(i64),
    Text(Seq<char>),
    Day(Date),
}

impl View for SqlValue {
    type V = SqlCell;

    open spec fn view(&self) -> SqlCell {
        match self {
            SqlValue::Null => SqlCell::Null,
            SqlValue::Integer(i) => SqlCell::Integer(*i),
            SqlValue::Text(t) => SqlCell::Text(t@),
            SqlValue::Day(d) => SqlCell::Day(*d),
        }
    }
}

/// An SQL statement and the values for its placeholders, in order.
#[derive(Debug, Clone, PartialEq)]
pub struct Statement {
    pub sql: String,
    pub params: Vec<SqlValue>,
}

impl View for Statement {
    /// The text, and what each placeholder value stands for.
    type V = (Seq<char>, Seq<SqlCell>);

    open spec fn view(&self) -> (Seq<char>, Seq<SqlCell>) {
        (self.sql@, self.params@.map_values(|v: SqlValue| v@))
    }
}

pub open spec fn int_cell(v: i32) -> SqlCell {
    SqlCell::Integer(v as i64)
}

pub open spec fn opt_int_cell(o: Option<i32>) -> SqlCell {
    match o {
        Some(v) => SqlCell::Integer(v as i64),
        None => SqlCell::Null,
    }
}

pub open spec fn text_cell(t: Seq<char>) -> SqlCell {
    SqlCell::Text(t)
}

pub open spec fn opt_text_cell(o: Option<String>) -> SqlCell {
    match o {
        Some(t) => SqlCell::Text(t@),
        None => SqlCell::Null,
    }
}

/// A flag is stored as the integer 1 or 0.
pub open spec fn flag_cell(b: bool) -> SqlCell {
    SqlCell::Integer(if b { 1 } else { 0 })
}

pub open spec fn day_cell(d: Date) -> SqlCell {
    SqlCell::Day(d)
}

pub fn int_value(v: i32) -> (r: SqlValue)
    ensures
        r@ == int_cell(v),
{
    SqlValue::Integer(v as i64)
}

pub fn opt_int_value(o: Option<i32>) -> (r: SqlValue)
    ensures
        r@ == opt_int_cell(o),
{
    match o {
        Some(v) => SqlValue::Integer(v as i64),
        None => SqlValue::Null,
    }
}

pub fn text_value(t: &str) -> (r: SqlValue)
    ensures
        r@ == text_cell(t@),
{
    SqlValue::Text(t.to_owned())
}

pub fn opt_text_value(o: &Option<String>) -> (r: SqlValue)
    ensures
        r@ == opt_text_cell(*o),
{
    match o {
        Some(t) => SqlValue::Text(t.as_str().to_owned()),
        None => SqlValue::Null,
    }
}

pub fn flag_value(b: bool) -> (r: SqlValue)
    ensures
        r@ == flag_cell(b),
{
    if b {
        SqlValue::Integer(1)
    } else {
        SqlValue::Integer(0)
    }
}

pub fn day_value(d: Date) -> (r: SqlValue)
    ensures
        r@ == day_cell(d),
{
    SqlValue::Day(d)
}

/// The code that a refused operation is reported with.
#[derive(Debug, Clone, Copy, PartialEq, Eq, Structural)]
pub enum FailureCode {
    PermissionDenied,
    OperationAborted,
    Unknown,
}

/// Why an operation on the records failed.
#[derive(Debug, Clone, PartialEq)]
pub enum StoreError {
    /// The database reported `code`, with a message.
    Failure { code: FailureCode, message: String },
    /// No row matched.
    NoRows,
    /// The query's arguments do not describe anything that can be looked up.
    InvalidQuery,
}

/// `e` is a failure reported with `code` and `message`.
pub open spec fn is_failure(e: StoreError, code: FailureCode, message: Seq<char>) -> bool {
    e matches StoreError::Failure { code: c, message: m } && c == code && m@ == message
}

impl StoreError {
    /// A failure with the given code and message.
    pub fn failure(code: FailureCode, message: &str) -> (r: StoreError)
        ensures
            is_failure(r, code, message@),
    {
        StoreError::Failure { code, message: message.to_owned() }
    }
}

/// The tables that the records are kept in.
#[derive(Debug, Clone, Copy, PartialEq, Eq, Structural)]
pub enum Table {
    Sessions,
    Classes,
    Sections,
    Subjects,
    ClassSubjects,
    Guardians,
    StudentRelationships,
    Students,
    Attendance,
    Staff,
    Complaints,
    StaffAttendance,
    TeacherClassSubjects,
}

/// A change that names its row by id.
#[derive(Debug, Clone, Copy, PartialEq, Eq, Structural)]
pub enum Change {
    Delete,
    Update,
}

/// How a change of `table` that matched no row is reported: a failure code and message, or
/// `None` for a plain "no rows".
pub open spec fn missing_row_report(table: Table, change: Change) -> Option<(FailureCode, Seq<char>)> {
    match change {
        Change::Delete => match table {
            Table::Sessions => Some((FailureCode::PermissionDenied, "No session deleted"@)),
            Table::Classes | Table::Sections | Table::ClassSubjects => Some(
                (FailureCode::PermissionDenied, "No rows deleted"@),
            ),
            Table::Guardians => Some((FailureCode::Unknown, "No guardian deleted. Invalid ID."@)),
            Table::StudentRelationships => Some(
                (FailureCode::Unknown, "No relationship deleted. Invalid ID."@),
            ),
            Table::Subjects => Some((FailureCode::Unknown, "No subject deleted. Invalid ID."@)),
            _ => None,
        },
        Change::Update => match table {
            Table::Sessions => Some(
                (FailureCode::OperationAborted, "No session found with the given ID"@),
            ),
            Table::Classes => Some((FailureCode::OperationAborted, "No class found with the given ID"@)),
            Table::Sections => Some(
                (FailureCode::OperationAborted, "No section found with the given ID"@),
            ),
            Table::ClassSubjects => Some(
                (FailureCode::OperationAborted, "No class_subject found with the given ID"@),
            ),
            Table::Guardians => Some((FailureCode::OperationAborted, "No guardian found to update."@)),
            Table::StudentRelationships => Some(
                (FailureCode::OperationAborted, "No relationship found to update."@),
            ),
            Table::Subjects => Some((FailureCode::OperationAborted, "No subject found to update."@)),
            _ => None,
        },
    }
}

/// `e` is how a `change` of `table` that matched no row is reported.
pub open spec fn is_missing_row(e: StoreError, table: Table, change: Change) -> bool {
    match missing_row_report(table, change) {
        Some((code, message)) => is_failure(e, code, message),
        None => e == StoreError::NoRows,
    }
}

/// The error for a `change` of `table` that matched no row.
pub fn missing_row(table: Table, change: Change) -> (r: StoreError)
    ensures
        is_missing_row(r, table, change),
{
    match change {
        Change::Delete => match table {
            Table::Sessions => StoreError::failure(FailureCode::PermissionDenied, "No session deleted"),
            Table::Classes | Table::Sections | Table::ClassSubjects => StoreError::failure(
                FailureCode::PermissionDenied,
                "No rows deleted",
            ),
            Table::Guardians => StoreError::failure(
                FailureCode::Unknown,
                "No guardian deleted. Invalid ID.",
            ),
            Table::StudentRelationships => StoreError::failure(
                FailureCode::Unknown,
                "No relationship deleted. Invalid ID.",
            ),
            Table::Subjects => StoreError::failure(
                FailureCode::Unknown,
                "No subject deleted. Invalid ID.",
            ),
            _ => StoreError::NoRows,
        },
        Change::Update => match table {
            Table::Sessions => StoreError::failure(
                FailureCode::OperationAborted,
                "No session found with the given ID",
            ),
            Table::Classes => StoreError::failure(
                FailureCode::OperationAborted,
                "No class found with the given ID",
            ),
            Table::Sections => StoreError::failure(
                FailureCode::OperationAborted,
                "No section found with the given ID",
            ),
            Table::ClassSubjects => StoreError::failure(
                FailureCode::OperationAborted,
                "No class_subject found with the given ID",
            ),
            Table::Guardians => StoreError::failure(
                FailureCode::OperationAborted,
                "No guardian found to update.",
            ),
            Table::StudentRelationships => StoreError::failure(
                FailureCode::OperationAborted,
                "No relationship found to update.",
            ),
            Table::Subjects => StoreError::failure(
                FailureCode::OperationAborted,
                "No subject found to update.",
            ),
            _ => StoreError::NoRows,
        },
    }
}

/// The outcome of a `change` of `table` that touched `affected` rows: `Ok` where it touched
/// one or more, else the table's error for a missing row.
pub fn check_affected(table: Table, change: Change, affected: usize) -> (r: Result<(), StoreError>)
    ensures
        affected > 0 ==> r is Ok,
        affected == 0 ==> (r matches Err(e) && is_missing_row(e, table, change)),
{
    if affected == 0 {
        Err(missing_row(table, change))
    } else {
        Ok(())
    }
}

/// The record id that the database gave to the row it inserted last.
pub open spec fn row_id(rowid: i64) -> i32 {
    rowid as i32
}

/// The id of an inserted row, as the records carry it (the low 32 bits).
pub fn id_of_rowid(rowid: i64) -> (r: i32)
    ensures
        r == row_id(rowid),
{
    rowid as i32
}


/// `text` where the optional value is present, else nothing.
pub open spec fn clause_if(o: Option<i32>, text: Seq<char>) -> Seq<char> {
    if o is Some {
        text
    } else {
        Seq::empty()
    }
}

/// The placeholder value of an optional filter: one integer where present, else none.
pub open spec fn param_if(o: Option<i32>) -> Seq<SqlCell> {
    match o {
        Some(v) => seq![int_cell(v)],
        None => Seq::empty(),
    }
}

impl Statement {
    /// A statement with the given text and no values yet.
    pub fn with_text(sql: &str) -> (r: Statement)
        ensures
            r@ == (sql@, Seq::<SqlCell>::empty()),
    {
        let r = Statement { sql: String::from_str(sql), params: Vec::new() };
        assert(r@.1 =~= Seq::<SqlCell>::empty());
        r
    }

    /// Binds `v` to the next placeholder.
    pub fn push(&mut self, v: SqlValue)
        ensures
            final(self)@ == (old(self)@.0, old(self)@.1.push(v@)),
    {
        self.params.push(v);
        assert(self@.1 =~= old(self)@.1.push(v@));
    }

    /// Appends `text` to the statement and binds `v` to the placeholder it holds.
    pub fn bind(&mut self, text: &str, v: SqlValue)
        ensures
            final(self)@ == (old(self)@.0 + text@, old(self)@.1.push(v@)),
    {
        self.sql.append(text);
        self.push(v);
    }

    /// Appends `text` to the statement.
    pub fn extend(&mut self, text: &str)
        ensures
            final(self)@ == (old(self)@.0 + text@, old(self)@.1),
    {
        self.sql.append(text);
    }

    /// Appends `text`, binding the integer, where the optional filter is present.
    pub fn filter_by(&mut self, text: &str, o: Option<i32>)
        ensures
            final(self)@ == (old(self)@.0 + clause_if(o, text@), old(self)@.1 + param_if(o)),
    {
        match o {
            Some(v) => {
                self.bind(text, int_value(v));
                assert(old(self)@.1.push(int_cell(v)) =~= old(self)@.1 + param_if(o));
            },
            None => {
                assert(self@.0 =~= self@.0 + clause_if(o, text@));
                assert(self@.1 =~= self@.1 + param_if(o));
            },
        }
    }
}

} // verus!
