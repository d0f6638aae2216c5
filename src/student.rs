//! Students, their roll numbers within a class, section and session, and their attendance.
use crate::date::{
    first_of_following_month, first_of_month, month_bounds, month_exists, today, Date, MAX_YEAR,
    MIN_YEAR,
};
use crate::store::{
    Statement, StoreError, clause_if, day_cell, day_value, flag_cell, flag_value, int_cell,
    int_value, opt_int_cell, opt_int_value, opt_text_cell, opt_text_value, param_if, text_cell,
    text_value,
};
use crate::text::{contains_text, has_infix};
use vstd::prelude::*;

verus! {

/// The roll that asks for the next free roll of the student's class, section and session.
pub const AUTO_ROLL: i32 = -1;

/// A student of a class (and, where the class has sections, of a section) in a session; the
/// roll is unique within the class and section.
#[derive(Debug, Clone, PartialEq)]
pub struct Student {
    pub id: i32,
    pub name: String,
    pub class_id: i32,
    pub section_id: Option<i32>,
    pub session_id: i32,
    pub dob: Date,
    pub gender: String,
    pub religion: String,
    pub address: String,
    pub phone: Option<String>,
    pub admission_date: Date,
    pub is_resident: bool,
    pub roll: i32,
    pub photo: Option<String>,
    pub health_notes: Option<String>,
    pub general_notes: Option<String>,
}

pub open spec fn roll_count_sql(section_id: Option<i32>) -> Seq<char> {
    "SELECT COUNT(*) FROM students WHERE class_id = ? AND session_id = ?"@ + if section_id is Some {
        " AND section_id = ?"@
    } else {
        " AND section_id IS NULL"@
    }
}

pub open spec fn student_list_sql(class_id: Option<i32>, section_id: Option<i32>) -> Seq<char> {
    "SELECT id, name, class_id, section_id, session_id, dob, gender, religion, address, phone, admission_date, is_resident, roll, photo, health_notes, general_notes FROM students WHERE session_id = ?"@
        + clause_if(class_id, " AND class_id = ?"@) + clause_if(section_id, " AND section_id = ?"@)
        + " ORDER BY roll ASC"@
}

pub open spec fn renumber_sql(section_id: Option<i32>) -> Seq<char> {
    "UPDATE students SET roll = roll - 1 WHERE session_id = ? AND class_id = ?"@ + if section_id is Some {
        " AND section_id = ?"@
    } else {
        " AND section_id IS NULL"@
    } + " AND roll > ?"@
}

/// The rolls of a scope after the student holding `removed` has left it: every roll above it
/// moves down by one.
pub open spec fn close_gap(rolls: Seq<int>, removed: int) -> Seq<int> {
    rolls.map_values(|r: int| if r > removed { r - 1 } else { r })
}

/// The rolls are exactly `1..=n`, each once.
pub open spec fn numbered_from_one(rolls: Seq<int>, n: int) -> bool {
    &&& rolls.len() == n
    &&& rolls.no_duplicates()
    &&& forall|i: int| 0 <= i < rolls.len() ==> 1 <= #[trigger] rolls[i] <= n
}

/// Closing the gap left by a removed student keeps a scope numbered from one: where the rolls
/// of the students who stay, together with the removed roll, were `1..=n`, they become
/// `1..=n-1`.
pub proof fn lemma_close_gap_renumbers(rolls: Seq<int>, removed: int, n: int)
    requires
        numbered_from_one(rolls.push(removed), n),
    ensures
        numbered_from_one(close_gap(rolls, removed), n - 1),
{
    let all = rolls.push(removed);
    let out = close_gap(rolls, removed);
    assert forall|i: int| 0 <= i < rolls.len() implies rolls[i] != removed && 1 <= rolls[i] <= n by {
        assert(all[i] == rolls[i]);
        assert(all[rolls.len() as int] == removed);
    }
    assert(1 <= removed <= n) by {
        assert(all[rolls.len() as int] == removed);
    }
    assert forall|i: int| 0 <= i < out.len() implies 1 <= #[trigger] out[i] <= n - 1 by {
        assert(rolls[i] != removed);
    }
    assert(out.no_duplicates()) by {
        assert forall|i: int, j: int| 0 <= i < out.len() && 0 <= j < out.len() && i != j implies out[i]
            != out[j] by {
            assert(all[i] == rolls[i] && all[j] == rolls[j]);
            assert(rolls[i] != rolls[j]);
            assert(rolls[i] != removed && rolls[j] != removed);
        }
    }
}

impl Student {
    pub fn new(
        id: i32,
        name: &str,
        class_id: i32,
        section_id: Option<i32>,
        session_id: i32,
        dob: Date,
        gender: &str,
        religion: &str,
        address: &str,
        phone: Option<String>,
        admission_date: Date,
        is_resident: bool,
        roll: i32,
        photo: Option<String>,
        health_notes: Option<String>,
        general_notes: Option<String>,
    ) -> (r: Student)
        ensures
            r.id == id && r.name@ == name@ && r.class_id == class_id && r.section_id == section_id,
            r.session_id == session_id && r.dob == dob && r.gender@ == gender@,
            r.religion@ == religion@ && r.address@ == address@ && r.phone == phone,
            r.admission_date == admission_date && r.is_resident == is_resident && r.roll == roll,
            r.photo == photo && r.health_notes == health_notes && r.general_notes == general_notes,
    {
        Student {
            id,
            name: name.to_owned(),
            class_id,
            section_id,
            session_id,
            dob,
            gender: gender.to_owned(),
            religion: religion.to_owned(),
            address: address.to_owned(),
            phone,
            admission_date,
            is_resident,
            roll,
            photo,
            health_notes,
            general_notes,
        }
    }

    /// Whether a requested roll asks for the next free roll of the scope.
    pub fn wants_next_roll(roll: i32) -> (r: bool)
        ensures
            r == (roll == AUTO_ROLL),
    {
        roll == AUTO_ROLL
    }

    /// Counts the students of a class in a session that share the section (or, without a
    /// section, that have none).
    pub fn roll_count_query(class_id: i32, session_id: i32, section_id: Option<i32>) -> (r: Statement)
        ensures
            r@ == (
                roll_count_sql(section_id),
                seq![int_cell(class_id), int_cell(session_id)] + param_if(section_id),
            ),
    {
        let mut st = Statement::with_text(
            "SELECT COUNT(*) FROM students WHERE class_id = ? AND session_id = ?",
        );
        st.push(int_value(class_id));
        st.push(int_value(session_id));
        match section_id {
            Some(s) => {
                st.bind(" AND section_id = ?", int_value(s));
            },
            None => {
                st.extend(" AND section_id IS NULL");
            },
        }
        assert(st@.1 =~= seq![int_cell(class_id), int_cell(session_id)] + param_if(section_id));
        st
    }

    /// The roll that follows `count` students already in the scope; `None` where no such
    /// roll can be written.
    pub fn next_roll(count: i32) -> (r: Option<i32>)
        ensures
            count < i32::MAX ==> r == Some((count + 1) as i32),
            count == i32::MAX ==> r is None,
    {
        if count < i32::MAX {
            Some(count + 1)
        } else {
            None
        }
    }

    /// The students of a session, narrowed to a class and to a section where those are given,
    /// in order of roll.
    pub fn list_query(session_id: i32, class_id: Option<i32>, section_id: Option<i32>) -> (r: Statement)
        ensures
            r@ == (
                student_list_sql(class_id, section_id),
                seq![int_cell(session_id)] + param_if(class_id) + param_if(section_id),
            ),
    {
        let mut st = Statement::with_text(
            "SELECT id, name, class_id, section_id, session_id, dob, gender, religion, address, phone, admission_date, is_resident, roll, photo, health_notes, general_notes FROM students WHERE session_id = ?",
        );
        st.push(int_value(session_id));
        st.filter_by(" AND class_id = ?", class_id);
        st.filter_by(" AND section_id = ?", section_id);
        st.extend(" ORDER BY roll ASC");
        st
    }

    /// Moves every roll above `roll` down by one within the removed student's class, section
    /// and session, so that the rolls stay contiguous.
    pub fn renumber_statement(session_id: i32, class_id: i32, section_id: Option<i32>, roll: i32) -> (r:
        Statement)
        ensures
            r@ == (
                renumber_sql(section_id),
                seq![int_cell(session_id), int_cell(class_id)] + param_if(section_id) + seq![
                    int_cell(roll),
                ],
            ),
    {
        let mut st = Statement::with_text(
            "UPDATE students SET roll = roll - 1 WHERE session_id = ? AND class_id = ?",
        );
        st.push(int_value(session_id));
        st.push(int_value(class_id));
        match section_id {
            Some(s) => {
                st.bind(" AND section_id = ?", int_value(s));
            },
            None => {
                st.extend(" AND section_id IS NULL");
            },
        }
        st.bind(" AND roll > ?", int_value(roll));
        assert(st@.1 =~= seq![int_cell(session_id), int_cell(class_id)] + param_if(section_id)
            + seq![int_cell(roll)]);
        st
    }
}

/// Where a student stands: the session, class and section, and the roll within them.
#[derive(Debug, Clone, Copy, PartialEq, Eq, Structural)]
pub struct Placement {
    pub session_id: i32,
    pub class_id: i32,
    pub section_id: Option<i32>,
    pub roll: i32,
}

impl Placement {
    /// What follows the removal of the student who stood at this placement, given the number
    /// of rows the removal touched: no row is an error; else the statement that closes the
    /// gap in the rolls.
    pub fn after_removal(&self, affected: usize) -> (r: Result<Statement, StoreError>)
        ensures
            affected == 0 ==> r == Err::<Statement, StoreError>(StoreError::NoRows),
            affected > 0 ==> (r matches Ok(st) && st@ == (
                renumber_sql(self.section_id),
                seq![int_cell(self.session_id), int_cell(self.class_id)] + param_if(self.section_id)
                    + seq![int_cell(self.roll)],
            )),
    {
        if affected == 0 {
            Err(StoreError::NoRows)
        } else {
            Ok(Student::renumber_statement(self.session_id, self.class_id, self.section_id, self.roll))
        }
    }
}

/// A student's attendance on one day.
#[derive(Debug, Clone, PartialEq)]
pub struct Attendance {
    pub id: i32,
    pub student_id: i32,
    pub date: Date,
    pub status: String,
}

pub open spec fn attendance_by_date_sql(class_id: Option<i32>, section_id: Option<i32>) -> Seq<char> {
    "SELECT a.id, a.student_id, a.date, a.status FROM attendance a JOIN students s ON a.student_id = s.id WHERE a.date = ? AND s.session_id = ?"@
        + clause_if(class_id, " AND s.class_id = ?"@) + clause_if(
        section_id,
        " AND s.section_id = ?"@,
    ) + " ORDER BY a.student_id ASC"@
}

/// The marker that a failed insert carries where the day was already recorded.
pub open spec fn duplicate_marker() -> Seq<char> {
    "UNIQUE constraint failed"@
}

/// What recording a student's attendance does next.
#[derive(Debug, PartialEq)]
pub enum UpsertAction {
    /// Stop with this answer.
    Finish(Result<Attendance, String>),
    /// Remove the record already kept for the student and day.
    ClearExisting,
    /// Insert the record once more.
    Reinsert,
}

/// The step that follows an insert: `retry` tells the second insert from the first.
pub open spec fn after_insert_spec(retry: bool, outcome: Result<Attendance, String>) -> spec_fn(
    UpsertAction,
) -> bool {
    |a: UpsertAction|
        match outcome {
            Ok(rec) => a == UpsertAction::Finish(Ok(rec)),
            Err(m) => if retry {
                a matches UpsertAction::Finish(Err(msg)) && msg@ == "Retry failed: "@ + m@
            } else if has_infix(m@, duplicate_marker()) {
                a == UpsertAction::ClearExisting
            } else {
                a matches UpsertAction::Finish(Err(msg)) && msg@ == "Insert failed: "@ + m@
            },
        }
}

/// The days `[first, next)` of the month asked for, where a missing year or month is taken
/// from `today`; `InvalidQuery` where that month or the one after it does not exist.
pub open spec fn month_range(year: Option<i32>, month: Option<u32>, today: Date) -> Result<
    (Date, Date),
    StoreError,
> {
    let y = match year {
        Some(y) => y,
        None => today.year,
    };
    let m = match month {
        Some(m) => m,
        None => today.month,
    };
    if month_exists(y, m) {
        Ok((first_of_month(y, m), first_of_following_month(y, m)))
    } else {
        Err(StoreError::InvalidQuery)
    }
}

/// Prefixes `m` with `prefix`.
fn prefixed(prefix: &str, m: &str) -> (r: String)
    ensures
        r@ == prefix@ + m@,
{
    let mut s = String::from_str(prefix);
    s.append(m);
    s
}

impl Attendance {
    pub fn new(id: i32, student_id: i32, date: Date, status: String) -> (r: Attendance)
        ensures
            r == (Attendance { id, student_id, date, status }),
    {
        Attendance { id, student_id, date, status }
    }

    /// The attendance of a session's students on `date`, narrowed to a class and to a section
    /// where those are given, in order of student.
    pub fn by_date_query(date: Date, session_id: i32, class_id: Option<i32>, section_id: Option<i32>) -> (r:
        Statement)
        ensures
            r@ == (
                attendance_by_date_sql(class_id, section_id),
                seq![day_cell(date), int_cell(session_id)] + param_if(class_id) + param_if(section_id),
            ),
    {
        let mut st = Statement::with_text(
            "SELECT a.id, a.student_id, a.date, a.status FROM attendance a JOIN students s ON a.student_id = s.id WHERE a.date = ? AND s.session_id = ?",
        );
        st.push(day_value(date));
        st.push(int_value(session_id));
        st.filter_by(" AND s.class_id = ?", class_id);
        st.filter_by(" AND s.section_id = ?", section_id);
        st.extend(" ORDER BY a.student_id ASC");
        st
    }

    /// The days `[first, next)` of the month asked for, where a missing year or month is taken
    /// from `today`.
    pub fn month_of(year: Option<i32>, month: Option<u32>, today: Date) -> (r: Result<
        (Date, Date),
        StoreError,
    >)
        ensures
            r == month_range(year, month, today),
    {
        let y = match year {
            Some(y) => y,
            None => today.year,
        };
        let m = match month {
            Some(m) => m,
            None => today.month,
        };
        month_bounds(y, m)
    }

    /// The days of the month asked for, a missing year or month being the current one.
    pub fn period(year: Option<i32>, month: Option<u32>) -> (r: Result<(Date, Date), StoreError>)
        ensures
            exists|t: Date| t.valid() && #[trigger] month_range(year, month, t) == r,
            (year, month) matches (Some(y), Some(m)) ==> (r is Ok <==> month_exists(y, m)),
            (year, month) matches (Some(y), None) ==> (MIN_YEAR <= y < MAX_YEAR ==> r is Ok),
            (year, month) matches (None, Some(m)) ==> (1 <= m <= 11 ==> r is Ok),
            r matches Ok((first, next)) ==> {
                &&& first.valid() && first.day == 1
                &&& next == first_of_following_month(first.year, first.month)
                &&& year matches Some(y) ==> first.year == y
                &&& month matches Some(m) ==> first.month == m
            },
            r matches Err(e) ==> e == StoreError::InvalidQuery,
    {
        let now = today();
        let r = Attendance::month_of(year, month, now);
        assert(now.valid() && month_range(year, month, now) == r);
        r
    }

    /// The step after an insert of the record: the answer where it succeeded; where the first
    /// insert found the day already recorded, clearing that record; else the failure, marked
    /// as that of the first or of the second insert.
    pub fn after_insert(retry: bool, outcome: Result<Attendance, String>) -> (r: UpsertAction)
        ensures
            after_insert_spec(retry, outcome)(r),
    {
        match outcome {
            Ok(rec) => UpsertAction::Finish(Ok(rec)),
            Err(m) => {
                if retry {
                    UpsertAction::Finish(Err(prefixed("Retry failed: ", m.as_str())))
                } else if contains_text(m.as_str(), "UNIQUE constraint failed") {
                    UpsertAction::ClearExisting
                } else {
                    UpsertAction::Finish(Err(prefixed("Insert failed: ", m.as_str())))
                }
            },
        }
    }

    /// The step after the existing record was cleared: insert again, or stop with the failure.
    pub fn after_clear(outcome: Result<(), String>) -> (r: UpsertAction)
        ensures
            outcome is Ok ==> r == UpsertAction::Reinsert,
            outcome matches Err(m) ==> (r matches UpsertAction::Finish(Err(msg)) && msg@
                == "Failed to delete existing record: "@ + m@),
    {
        match outcome {
            Ok(()) => UpsertAction::Reinsert,
            Err(m) => UpsertAction::Finish(Err(prefixed("Failed to delete existing record: ", m.as_str()))),
        }
    }
}

pub const STUDENT_INSERT_SQL: &'static str =
    "INSERT INTO students (name, class_id, section_id, session_id, dob, gender, religion, address, phone, admission_date, is_resident, roll, photo, health_notes, general_notes) VALUES (?1, ?2, ?3, ?4, ?5, ?6, ?7, ?8, ?9, ?10, ?11, ?12, ?13, ?14, ?15)";

pub const STUDENT_SELECT_BY_ID_SQL: &'static str =
    "SELECT id, name, class_id, section_id, session_id, dob, gender, religion, address, phone, admission_date, is_resident, roll, photo, health_notes, general_notes FROM students WHERE id = ?";

pub const STUDENT_PLACEMENT_SQL: &'static str =
    "SELECT session_id, class_id, section_id, roll FROM students WHERE id = ?";

pub const STUDENT_UPDATE_SQL: &'static str =
    "UPDATE students SET name = ?1, class_id = ?2, section_id = ?3, session_id = ?4, dob = ?5, gender = ?6, religion = ?7, address = ?8, phone = ?9, admission_date = ?10, is_resident = ?11, roll = ?12, photo = ?13, health_notes = ?14, general_notes = ?15 WHERE id = ?16";

pub const STUDENT_DELETE_SQL: &'static str = "DELETE FROM students WHERE id = ?";

impl Student {
    /// Adds the record's fields as a new row; the database assigns its id.
    pub fn insert_statement(s: &Student) -> (r: Statement)
        ensures
            r@ == (
                STUDENT_INSERT_SQL@,
                seq![
                    text_cell(s.name@),
                    int_cell(s.class_id),
                    opt_int_cell(s.section_id),
                    int_cell(s.session_id),
                    day_cell(s.dob),
                    text_cell(s.gender@),
                    text_cell(s.religion@),
                    text_cell(s.address@),
                    opt_text_cell(s.phone),
                    day_cell(s.admission_date),
                    flag_cell(s.is_resident),
                    int_cell(s.roll),
                    opt_text_cell(s.photo),
                    opt_text_cell(s.health_notes),
                    opt_text_cell(s.general_notes),
                ],
            ),
    {
        let mut st = Statement::with_text(STUDENT_INSERT_SQL);
        st.push(text_value(s.name.as_str()));
        st.push(int_value(s.class_id));
        st.push(opt_int_value(s.section_id));
        st.push(int_value(s.session_id));
        st.push(day_value(s.dob));
        st.push(text_value(s.gender.as_str()));
        st.push(text_value(s.religion.as_str()));
        st.push(text_value(s.address.as_str()));
        st.push(opt_text_value(&s.phone));
        st.push(day_value(s.admission_date));
        st.push(flag_value(s.is_resident));
        st.push(int_value(s.roll));
        st.push(opt_text_value(&s.photo));
        st.push(opt_text_value(&s.health_notes));
        st.push(opt_text_value(&s.general_notes));
        st
    }

    /// The student with the given id.
    pub fn select_by_id_statement(id: i32) -> (r: Statement)
        ensures
            r@ == (STUDENT_SELECT_BY_ID_SQL@, seq![int_cell(id)]),
    {
        let mut st = Statement::with_text(STUDENT_SELECT_BY_ID_SQL);
        st.push(int_value(id));
        st
    }

    /// Where the student with the given id stands: session, class, section and roll.
    pub fn placement_statement(id: i32) -> (r: Statement)
        ensures
            r@ == (STUDENT_PLACEMENT_SQL@, seq![int_cell(id)]),
    {
        let mut st = Statement::with_text(STUDENT_PLACEMENT_SQL);
        st.push(int_value(id));
        st
    }

    /// Writes the record's fields over the row with the record's id.
    pub fn update_statement(s: &Student) -> (r: Statement)
        ensures
            r@ == (
                STUDENT_UPDATE_SQL@,
                seq![
                    text_cell(s.name@),
                    int_cell(s.class_id),
                    opt_int_cell(s.section_id),
                    int_cell(s.session_id),
                    day_cell(s.dob),
                    text_cell(s.gender@),
                    text_cell(s.religion@),
                    text_cell(s.address@),
                    opt_text_cell(s.phone),
                    day_cell(s.admission_date),
                    flag_cell(s.is_resident),
                    int_cell(s.roll),
                    opt_text_cell(s.photo),
                    opt_text_cell(s.health_notes),
                    opt_text_cell(s.general_notes),
                    int_cell(s.id),
                ],
            ),
    {
        let mut st = Statement::with_text(STUDENT_UPDATE_SQL);
        st.push(text_value(s.name.as_str()));
        st.push(int_value(s.class_id));
        st.push(opt_int_value(s.section_id));
        st.push(int_value(s.session_id));
        st.push(day_value(s.dob));
        st.push(text_value(s.gender.as_str()));
        st.push(text_value(s.religion.as_str()));
        st.push(text_value(s.address.as_str()));
        st.push(opt_text_value(&s.phone));
        st.push(day_value(s.admission_date));
        st.push(flag_value(s.is_resident));
        st.push(int_value(s.roll));
        st.push(opt_text_value(&s.photo));
        st.push(opt_text_value(&s.health_notes));
        st.push(opt_text_value(&s.general_notes));
        st.push(int_value(s.id));
        st
    }

    /// Removes the row with the given id.
    pub fn delete_statement(id: i32) -> (r: Statement)
        ensures
            r@ == (STUDENT_DELETE_SQL@, seq![int_cell(id)]),
    {
        let mut st = Statement::with_text(STUDENT_DELETE_SQL);
        st.push(int_value(id));
        st
    }
}

pub const ATTENDANCE_INSERT_SQL: &'static str =
    "INSERT OR REPLACE INTO attendance (student_id, date, status) VALUES (?1, ?2, ?3)";

pub const ATTENDANCE_SELECT_IN_RANGE_SQL: &'static str =
    "SELECT id, student_id, date, status FROM attendance WHERE student_id = ?1 AND date >= ?2 AND date < ?3 ORDER BY date ASC";

pub const ATTENDANCE_DELETE_DAY_SQL: &'static str =
    "DELETE FROM attendance WHERE student_id = ?1 AND date = ?2";

pub const ATTENDANCE_DELETE_SQL: &'static str = "DELETE FROM attendance WHERE id = ?";

impl Attendance {
    /// Adds the record's fields as a new row; the database assigns its id.
    pub fn insert_statement(a: &Attendance) -> (r: Statement)
        ensures
            r@ == (
                ATTENDANCE_INSERT_SQL@,
                seq![
                    int_cell(a.student_id),
                    day_cell(a.date),
                    text_cell(a.status@),
                ],
            ),
    {
        let mut st = Statement::with_text(ATTENDANCE_INSERT_SQL);
        st.push(int_value(a.student_id));
        st.push(day_value(a.date));
        st.push(text_value(a.status.as_str()));
        st
    }

    /// A student's attendance on the days `[first, next)`, earliest first.
    pub fn select_in_range_statement(student_id: i32, first: Date, next: Date) -> (r: Statement)
        ensures
            r@ == (
                ATTENDANCE_SELECT_IN_RANGE_SQL@,
                seq![
                    int_cell(student_id),
                    day_cell(first),
                    day_cell(next),
                ],
            ),
    {
        let mut st = Statement::with_text(ATTENDANCE_SELECT_IN_RANGE_SQL);
        st.push(int_value(student_id));
        st.push(day_value(first));
        st.push(day_value(next));
        st
    }

    /// Removes a student's attendance on the given day.
    pub fn delete_day_statement(student_id: i32, date: Date) -> (r: Statement)
        ensures
            r@ == (ATTENDANCE_DELETE_DAY_SQL@, seq![int_cell(student_id), day_cell(date)]),
    {
        let mut st = Statement::with_text(ATTENDANCE_DELETE_DAY_SQL);
        st.push(int_value(student_id));
        st.push(day_value(date));
        st
    }

    /// Removes the row with the given id.
    pub fn delete_statement(id: i32) -> (r: Statement)
        ensures
            r@ == (ATTENDANCE_DELETE_SQL@, seq![int_cell(id)]),
    {
        let mut st = Statement::with_text(ATTENDANCE_DELETE_SQL);
        st.push(int_value(id));
        st
    }
}

} // verus!
