//! Staff members, complaints about them, their attendance, and what each teacher teaches.
use crate::date::Date;
use crate::store::{
    SqlCell, Statement, day_cell, day_value, flag_cell, flag_value, int_cell, int_value,
    opt_int_cell, opt_int_value, opt_text_cell, opt_text_value, text_cell, text_value,
};
use vstd::prelude::*;

verus! {

/// A member of staff, teacher or not.
#[derive(Debug, Clone, PartialEq)]
pub struct Staff {
    pub id: i32,
    pub name: String,
    pub phone: String,
    pub address: String,
    pub salary: i32,
    pub hire_date: Date,
    pub photo: Option<String>,
    pub is_teacher: bool,
    pub role: String,
    pub qualification: String,
    pub general_note: Option<String>,
    pub health_note: Option<String>,
}

/// A complaint recorded about a staff member.
#[derive(Debug, Clone, PartialEq)]
pub struct Complaint {
    pub id: i32,
    pub staff_id: i32,
    pub date: Date,
    pub text: String,
    pub level: String,
}

/// A staff member's attendance on one day.
#[derive(Debug, Clone, PartialEq)]
pub struct Attendance {
    pub id: i32,
    pub staff_id: i32,
    pub date: Date,
    pub status: String,
}

/// A teacher teaching a subject to a class (and, where given, one of its sections) in a session.
#[derive(Debug, Clone, Copy, PartialEq, Eq, Structural)]
pub struct TeacherClassSubject {
    pub id: i32,
    pub teacher_id: i32,
    pub session_id: i32,
    pub class_id: i32,
    pub section_id: Option<i32>,
    pub subject_id: i32,
}

pub const STAFF_INSERT_SQL: &'static str =
    "INSERT INTO staffs (name, phone, address, salary, hire_date, photo, is_teacher, role, qualification, general_note, health_note) VALUES (?1, ?2, ?3, ?4, ?5, ?6, ?7, ?8, ?9, ?10, ?11)";

pub const STAFF_SELECT_SQL: &'static str =
    "SELECT id, name, phone, address, salary, hire_date, photo, is_teacher, role, qualification, general_note, health_note FROM staffs";

pub const STAFF_UPDATE_SQL: &'static str =
    "UPDATE staffs SET name = ?1, phone = ?2, address = ?3, salary = ?4, hire_date = ?5, photo = ?6, is_teacher = ?7, role = ?8, qualification = ?9, general_note = ?10, health_note = ?11 WHERE id = ?12";

pub const STAFF_DELETE_SQL: &'static str = "DELETE FROM staffs WHERE id = ?1";

impl Staff {
    /// Adds the record's fields as a new row; the database assigns its id.
    pub fn insert_statement(s: &Staff) -> (r: Statement)
        ensures
            r@ == (
                STAFF_INSERT_SQL@,
                seq![
                    text_cell(s.name@),
                    text_cell(s.phone@),
                    text_cell(s.address@),
                    int_cell(s.salary),
                    day_cell(s.hire_date),
                    opt_text_cell(s.photo),
                    flag_cell(s.is_teacher),
                    text_cell(s.role@),
                    text_cell(s.qualification@),
                    opt_text_cell(s.general_note),
                    opt_text_cell(s.health_note),
                ],
            ),
    {
        let mut st = Statement::with_text(STAFF_INSERT_SQL);
        st.push(text_value(s.name.as_str()));
        st.push(text_value(s.phone.as_str()));
        st.push(text_value(s.address.as_str()));
        st.push(int_value(s.salary));
        st.push(day_value(s.hire_date));
        st.push(opt_text_value(&s.photo));
        st.push(flag_value(s.is_teacher));
        st.push(text_value(s.role.as_str()));
        st.push(text_value(s.qualification.as_str()));
        st.push(opt_text_value(&s.general_note));
        st.push(opt_text_value(&s.health_note));
        st
    }

    /// Every staff member.
    pub fn select_all_statement() -> (r: Statement)
        ensures
            r@ == (STAFF_SELECT_SQL@, Seq::<SqlCell>::empty()),
    {
        let mut st = Statement::with_text(STAFF_SELECT_SQL);
        st
    }

    /// Writes the record's fields over the row with the record's id.
    pub fn update_statement(s: &Staff) -> (r: Statement)
        ensures
            r@ == (
                STAFF_UPDATE_SQL@,
                seq![
                    text_cell(s.name@),
                    text_cell(s.phone@),
                    text_cell(s.address@),
                    int_cell(s.salary),
                    day_cell(s.hire_date),
                    opt_text_cell(s.photo),
                    flag_cell(s.is_teacher),
                    text_cell(s.role@),
                    text_cell(s.qualification@),
                    opt_text_cell(s.general_note),
                    opt_text_cell(s.health_note),
                    int_cell(s.id),
                ],
            ),
    {
        let mut st = Statement::with_text(STAFF_UPDATE_SQL);
        st.push(text_value(s.name.as_str()));
        st.push(text_value(s.phone.as_str()));
        st.push(text_value(s.address.as_str()));
        st.push(int_value(s.salary));
        st.push(day_value(s.hire_date));
        st.push(opt_text_value(&s.photo));
        st.push(flag_value(s.is_teacher));
        st.push(text_value(s.role.as_str()));
        st.push(text_value(s.qualification.as_str()));
        st.push(opt_text_value(&s.general_note));
        st.push(opt_text_value(&s.health_note));
        st.push(int_value(s.id));
        st
    }

    /// Removes the row with the given id.
    pub fn delete_statement(id: i32) -> (r: Statement)
        ensures
            r@ == (STAFF_DELETE_SQL@, seq![int_cell(id)]),
    {
        let mut st = Statement::with_text(STAFF_DELETE_SQL);
        st.push(int_value(id));
        st
    }
}

pub const COMPLAINT_INSERT_SQL: &'static str =
    "INSERT INTO complaints (staff_id, date, text, level) VALUES (?1, ?2, ?3, ?4)";

pub const COMPLAINT_SELECT_BY_STAFF_SQL: &'static str =
    "SELECT id, staff_id, date, text, level FROM complaints WHERE staff_id = ?1 ORDER BY date DESC";

pub const COMPLAINT_UPDATE_SQL: &'static str =
    "UPDATE complaints SET staff_id = ?1, date = ?2, text = ?3, level = ?4 WHERE id = ?5";

pub const COMPLAINT_DELETE_SQL: &'static str = "DELETE FROM complaints WHERE id = ?1";

impl Complaint {
    /// Adds the record's fields as a new row; the database assigns its id.
    pub fn insert_statement(c: &Complaint) -> (r: Statement)
        ensures
            r@ == (
                COMPLAINT_INSERT_SQL@,
                seq![
                    int_cell(c.staff_id),
                    day_cell(c.date),
                    text_cell(c.text@),
                    text_cell(c.level@),
                ],
            ),
    {
        let mut st = Statement::with_text(COMPLAINT_INSERT_SQL);
        st.push(int_value(c.staff_id));
        st.push(day_value(c.date));
        st.push(text_value(c.text.as_str()));
        st.push(text_value(c.level.as_str()));
        st
    }

    /// The complaints about a staff member, latest first.
    pub fn select_by_staff_statement(staff_id: i32) -> (r: Statement)
        ensures
            r@ == (COMPLAINT_SELECT_BY_STAFF_SQL@, seq![int_cell(staff_id)]),
    {
        let mut st = Statement::with_text(COMPLAINT_SELECT_BY_STAFF_SQL);
        st.push(int_value(staff_id));
        st
    }

    /// Writes the record's fields over the row with the record's id.
    pub fn update_statement(c: &Complaint) -> (r: Statement)
        ensures
            r@ == (
                COMPLAINT_UPDATE_SQL@,
                seq![
                    int_cell(c.staff_id),
                    day_cell(c.date),
                    text_cell(c.text@),
                    text_cell(c.level@),
                    int_cell(c.id),
                ],
            ),
    {
        let mut st = Statement::with_text(COMPLAINT_UPDATE_SQL);
        st.push(int_value(c.staff_id));
        st.push(day_value(c.date));
        st.push(text_value(c.text.as_str()));
        st.push(text_value(c.level.as_str()));
        st.push(int_value(c.id));
        st
    }

    /// Removes the row with the given id.
    pub fn delete_statement(id: i32) -> (r: Statement)
        ensures
            r@ == (COMPLAINT_DELETE_SQL@, seq![int_cell(id)]),
    {
        let mut st = Statement::with_text(COMPLAINT_DELETE_SQL);
        st.push(int_value(id));
        st
    }
}

pub const STAFF_ATTENDANCE_INSERT_SQL: &'static str =
    "INSERT OR REPLACE INTO attendance_staff (staff_id, date, status) VALUES (?1, ?2, ?3)";

pub const STAFF_ATTENDANCE_SELECT_BY_DATE_SQL: &'static str =
    "SELECT id, staff_id, date, status FROM attendance_staff WHERE date = ?1 ORDER BY staff_id ASC";

pub const STAFF_ATTENDANCE_SELECT_BY_STAFF_SQL: &'static str =
    "SELECT id, staff_id, date, status FROM attendance_staff WHERE staff_id = ?1 ORDER BY date ASC";

pub const STAFF_ATTENDANCE_UPDATE_SQL: &'static str =
    "UPDATE attendance_staff SET staff_id = ?1, date = ?2, status = ?3 WHERE id = ?4";

pub const STAFF_ATTENDANCE_DELETE_SQL: &'static str = "DELETE FROM attendance_staff WHERE id = ?1";

impl Attendance {
    /// Adds the record's fields as a new row; the database assigns its id.
    pub fn insert_statement(a: &Attendance) -> (r: Statement)
        ensures
            r@ == (
                STAFF_ATTENDANCE_INSERT_SQL@,
                seq![
                    int_cell(a.staff_id),
                    day_cell(a.date),
                    text_cell(a.status@),
                ],
            ),
    {
        let mut st = Statement::with_text(STAFF_ATTENDANCE_INSERT_SQL);
        st.push(int_value(a.staff_id));
        st.push(day_value(a.date));
        st.push(text_value(a.status.as_str()));
        st
    }

    /// The staff attendance of a day, in order of staff member.
    pub fn select_by_date_statement(date: Date) -> (r: Statement)
        ensures
            r@ == (STAFF_ATTENDANCE_SELECT_BY_DATE_SQL@, seq![day_cell(date)]),
    {
        let mut st = Statement::with_text(STAFF_ATTENDANCE_SELECT_BY_DATE_SQL);
        st.push(day_value(date));
        st
    }

    /// A staff member's attendance, earliest day first.
    pub fn select_by_staff_statement(staff_id: i32) -> (r: Statement)
        ensures
            r@ == (STAFF_ATTENDANCE_SELECT_BY_STAFF_SQL@, seq![int_cell(staff_id)]),
    {
        let mut st = Statement::with_text(STAFF_ATTENDANCE_SELECT_BY_STAFF_SQL);
        st.push(int_value(staff_id));
        st
    }

    /// Writes the record's fields over the row with the record's id.
    pub fn update_statement(a: &Attendance) -> (r: Statement)
        ensures
            r@ == (
                STAFF_ATTENDANCE_UPDATE_SQL@,
                seq![
                    int_cell(a.staff_id),
                    day_cell(a.date),
                    text_cell(a.status@),
                    int_cell(a.id),
                ],
            ),
    {
        let mut st = Statement::with_text(STAFF_ATTENDANCE_UPDATE_SQL);
        st.push(int_value(a.staff_id));
        st.push(day_value(a.date));
        st.push(text_value(a.status.as_str()));
        st.push(int_value(a.id));
        st
    }

    /// Removes the row with the given id.
    pub fn delete_statement(id: i32) -> (r: Statement)
        ensures
            r@ == (STAFF_ATTENDANCE_DELETE_SQL@, seq![int_cell(id)]),
    {
        let mut st = Statement::with_text(STAFF_ATTENDANCE_DELETE_SQL);
        st.push(int_value(id));
        st
    }
}

pub const TEACHER_CLASS_SUBJECT_INSERT_SQL: &'static str =
    "INSERT INTO teacher_class_subjects (teacher_id, session_id, class_id, section_id, subject_id) VALUES (?1, ?2, ?3, ?4, ?5)";

pub const TEACHER_CLASS_SUBJECT_SELECT_SQL: &'static str =
    "SELECT id, teacher_id, session_id, class_id, section_id, subject_id FROM teacher_class_subjects WHERE teacher_id = ?1";

pub const TEACHER_CLASS_SUBJECT_UPDATE_SQL: &'static str =
    "UPDATE teacher_class_subjects SET teacher_id = ?1, session_id = ?2, class_id = ?3, section_id = ?4, subject_id = ?5 WHERE id = ?6";

pub const TEACHER_CLASS_SUBJECT_DELETE_SQL: &'static str =
    "DELETE FROM teacher_class_subjects WHERE id = ?1";

impl TeacherClassSubject {
    /// Adds the record's fields as a new row; the database assigns its id.
    pub fn insert_statement(t: &TeacherClassSubject) -> (r: Statement)
        ensures
            r@ == (
                TEACHER_CLASS_SUBJECT_INSERT_SQL@,
                seq![
                    int_cell(t.teacher_id),
                    int_cell(t.session_id),
                    int_cell(t.class_id),
                    opt_int_cell(t.section_id),
                    int_cell(t.subject_id),
                ],
            ),
    {
        let mut st = Statement::with_text(TEACHER_CLASS_SUBJECT_INSERT_SQL);
        st.push(int_value(t.teacher_id));
        st.push(int_value(t.session_id));
        st.push(int_value(t.class_id));
        st.push(opt_int_value(t.section_id));
        st.push(int_value(t.subject_id));
        st
    }

    /// What a teacher teaches.
    pub fn select_by_teacher_statement(teacher_id: i32) -> (r: Statement)
        ensures
            r@ == (TEACHER_CLASS_SUBJECT_SELECT_SQL@, seq![int_cell(teacher_id)]),
    {
        let mut st = Statement::with_text(TEACHER_CLASS_SUBJECT_SELECT_SQL);
        st.push(int_value(teacher_id));
        st
    }

    /// Writes the record's fields over the row with the record's id.
    pub fn update_statement(t: &TeacherClassSubject) -> (r: Statement)
        ensures
            r@ == (
                TEACHER_CLASS_SUBJECT_UPDATE_SQL@,
                seq![
                    int_cell(t.teacher_id),
                    int_cell(t.session_id),
                    int_cell(t.class_id),
                    opt_int_cell(t.section_id),
                    int_cell(t.subject_id),
                    int_cell(t.id),
                ],
            ),
    {
        let mut st = Statement::with_text(TEACHER_CLASS_SUBJECT_UPDATE_SQL);
        st.push(int_value(t.teacher_id));
        st.push(int_value(t.session_id));
        st.push(int_value(t.class_id));
        st.push(opt_int_value(t.section_id));
        st.push(int_value(t.subject_id));
        st.push(int_value(t.id));
        st
    }

    /// Removes the row with the given id.
    pub fn delete_statement(id: i32) -> (r: Statement)
        ensures
            r@ == (TEACHER_CLASS_SUBJECT_DELETE_SQL@, seq![int_cell(id)]),
    {
        let mut st = Statement::with_text(TEACHER_CLASS_SUBJECT_DELETE_SQL);
        st.push(int_value(id));
        st
    }
}

} // verus!
