use scholario::class::{Class, Section};
use scholario::date::Date;
use scholario::guardian::{search_pattern, Guardian, StudentRelationship};
use scholario::schema::{schema, FOREIGN_KEYS_SQL, STUDENTS_TABLE_SQL};
use scholario::session::Session;
use scholario::staff::{Attendance, Complaint, Staff, TeacherClassSubject};
use scholario::store::{
    check_affected, id_of_rowid, missing_row, Change, FailureCode, SqlValue, StoreError, Table,
};
use scholario::subject::{ClassSubject, Subject};
use scholario::teacher::{Teacher, TeacherSubject};

fn day(year: i32, month: u32, day: u32) -> Date {
    Date { year, month, day }
}

fn failure(code: FailureCode, message: &str) -> StoreError {
    StoreError::Failure { code, message: message.to_string() }
}

#[test]
fn class_new_and_statements() {
    let c = Class::new(5, "Six", 6, 1000, 300, 500, 2);
    assert_eq!(
        (c.id, c.name.as_str(), c.level, c.admission_fee, c.monthly_fee, c.readmission_fee, c.session_id),
        (5, "Six", 6, 1000, 300, 500, 2)
    );
    let st = Class::insert_statement(&c);
    assert_eq!(
        st.sql,
        "INSERT INTO classes (name, level, admission_fee, monthly_fee, readmission_fee, session_id) VALUES (?1, ?2, ?3, ?4, ?5, ?6)"
    );
    assert_eq!(
        st.params,
        vec![
            SqlValue::Text("Six".to_string()),
            SqlValue::Integer(6),
            SqlValue::Integer(1000),
            SqlValue::Integer(300),
            SqlValue::Integer(500),
            SqlValue::Integer(2),
        ]
    );
    let st = Class::update_statement(&c);
    assert_eq!(st.params.last(), Some(&SqlValue::Integer(5)));
    let st = Class::delete_statement(5);
    assert_eq!(st.sql, "DELETE FROM classes WHERE id = ?1");
    assert_eq!(st.params, vec![SqlValue::Integer(5)]);
    let st = Class::select_by_session_statement(2);
    assert!(st.sql.ends_with("FROM classes WHERE session_id = ?1"));
    assert_eq!(st.params, vec![SqlValue::Integer(2)]);
}

#[test]
fn first_section_adopts_students_without_one() {
    let st = Section::adoption_statement(1, 11, 4).unwrap();
    assert_eq!(
        st.sql,
        "UPDATE students SET section_id = ?1 WHERE class_id = ?2 AND section_id IS NULL"
    );
    assert_eq!(st.params, vec![SqlValue::Integer(11), SqlValue::Integer(4)]);
}

#[test]
fn later_sections_adopt_nobody() {
    assert_eq!(Section::adoption_statement(2, 11, 4), None);
    assert_eq!(Section::adoption_statement(0, 11, 4), None);
}

#[test]
fn section_new_and_count() {
    let s = Section::new(3, 4, "A");
    assert_eq!((s.id, s.class_id, s.name.as_str()), (3, 4, "A"));
    let st = Section::count_in_class_statement(4);
    assert_eq!(st.sql, "SELECT COUNT(*) FROM sections WHERE class_id = ?1");
    assert_eq!(st.params, vec![SqlValue::Integer(4)]);
}

#[test]
fn guardian_search_wraps_the_query() {
    assert_eq!(search_pattern("01711"), "%01711%");
    assert_eq!(search_pattern(""), "%%");
    let st = Guardian::search_statement("Rah");
    assert!(st.sql.ends_with("WHERE name LIKE ?1 OR phone LIKE ?1 LIMIT 15"));
    assert_eq!(st.params, vec![SqlValue::Text("%Rah%".to_string())]);
}

#[test]
fn guardian_optional_fields_become_null() {
    let g = Guardian::new(2, "Amina", "017", None, Some("img".to_string()));
    assert_eq!(g.name, "Amina");
    assert_eq!(g.phone, "017");
    let st = Guardian::insert_statement(&g);
    assert_eq!(
        st.params,
        vec![
            SqlValue::Text("Amina".to_string()),
            SqlValue::Text("017".to_string()),
            SqlValue::Null,
            SqlValue::Text("img".to_string()),
        ]
    );
}

#[test]
fn relationship_new_and_update() {
    let r = StudentRelationship::new(1, 2, 3, Some("mother".to_string()));
    assert_eq!(r.relationship, Some("mother".to_string()));
    let st = StudentRelationship::update_statement(&r);
    assert_eq!(
        st.sql,
        "UPDATE student_relationships SET student_id = ?1, related_id = ?2, relationship = ?3 WHERE id = ?4"
    );
    assert_eq!(
        st.params,
        vec![
            SqlValue::Integer(2),
            SqlValue::Integer(3),
            SqlValue::Text("mother".to_string()),
            SqlValue::Integer(1),
        ]
    );
}

#[test]
fn subject_and_class_subject_statements() {
    let s = Subject::new(4, "Math", 101);
    assert_eq!((s.id, s.name.as_str(), s.code), (4, "Math", 101));
    assert_eq!(Subject::delete_statement(4).sql, "DELETE FROM subjects WHERE id = ?");
    let cs = ClassSubject::new(1, 2, 4, true);
    assert_eq!(cs, ClassSubject { id: 1, class_id: 2, subject_id: 4, is_mandatory: true });
    assert_eq!(
        ClassSubject::insert_statement(&cs).params,
        vec![SqlValue::Integer(2), SqlValue::Integer(4), SqlValue::Integer(1)]
    );
    let optional = ClassSubject::new(1, 2, 4, false);
    assert_eq!(ClassSubject::insert_statement(&optional).params[2], SqlValue::Integer(0));
}

#[test]
fn session_statements_carry_days() {
    let s = Session::new(1, "2024", day(2024, 1, 1), day(2024, 12, 31));
    assert_eq!(s.name, "2024");
    let st = Session::insert_statement(&s);
    assert_eq!(st.sql, "INSERT INTO sessions (name, start_date, end_date) VALUES (?1, ?2, ?3)");
    assert_eq!(
        st.params,
        vec![
            SqlValue::Text("2024".to_string()),
            SqlValue::Day(day(2024, 1, 1)),
            SqlValue::Day(day(2024, 12, 31)),
        ]
    );
    assert_eq!(Session::select_by_id_statement(9).params, vec![SqlValue::Integer(9)]);
}

#[test]
fn staff_statements() {
    let s = Staff {
        id: 8,
        name: "Nadia".to_string(),
        phone: "019".to_string(),
        address: "Khulna".to_string(),
        salary: 25000,
        hire_date: day(2020, 6, 1),
        photo: None,
        is_teacher: true,
        role: "Teacher".to_string(),
        qualification: "MSc".to_string(),
        general_note: None,
        health_note: Some("none".to_string()),
    };
    let st = Staff::update_statement(&s);
    assert_eq!(st.params.len(), 12);
    assert_eq!(st.params[4], SqlValue::Day(day(2020, 6, 1)));
    assert_eq!(st.params[6], SqlValue::Integer(1));
    assert_eq!(st.params[11], SqlValue::Integer(8));
    let c = Complaint { id: 1, staff_id: 8, date: day(2024, 3, 3), text: "late".to_string(), level: "low".to_string() };
    let st = Complaint::select_by_staff_statement(8);
    assert!(st.sql.ends_with("WHERE staff_id = ?1 ORDER BY date DESC"));
    assert_eq!(Complaint::insert_statement(&c).params.len(), 4);
    let a = Attendance { id: 1, staff_id: 8, date: day(2024, 3, 3), status: "present".to_string() };
    assert!(Attendance::insert_statement(&a).sql.starts_with("INSERT OR REPLACE INTO attendance_staff"));
    assert_eq!(
        Attendance::select_by_date_statement(day(2024, 3, 3)).params,
        vec![SqlValue::Day(day(2024, 3, 3))]
    );
    let t = TeacherClassSubject { id: 2, teacher_id: 8, session_id: 1, class_id: 3, section_id: None, subject_id: 4 };
    assert_eq!(
        TeacherClassSubject::insert_statement(&t).params,
        vec![SqlValue::Integer(8), SqlValue::Integer(1), SqlValue::Integer(3), SqlValue::Null, SqlValue::Integer(4)]
    );
}

#[test]
fn teacher_search_pattern_skips_empty_terms() {
    assert_eq!(Teacher::search_pattern(""), None);
    assert_eq!(Teacher::search_pattern("ali"), Some("%ali%".to_string()));
    let t = Teacher::new(1, "Ali", "018", "Rajshahi", 20000, None);
    assert_eq!((t.name.as_str(), t.phone.as_str(), t.address.as_str(), t.salary), ("Ali", "018", "Rajshahi", 20000));
    assert_eq!(TeacherSubject::new(1, 2, 3), TeacherSubject { id: 1, teacher_id: 2, subject_id: 3 });
}

#[test]
fn missing_rows_are_reported_per_table() {
    assert_eq!(missing_row(Table::Classes, Change::Delete), failure(FailureCode::PermissionDenied, "No rows deleted"));
    assert_eq!(missing_row(Table::Sessions, Change::Delete), failure(FailureCode::PermissionDenied, "No session deleted"));
    assert_eq!(
        missing_row(Table::Guardians, Change::Delete),
        failure(FailureCode::Unknown, "No guardian deleted. Invalid ID.")
    );
    assert_eq!(
        missing_row(Table::Subjects, Change::Update),
        failure(FailureCode::OperationAborted, "No subject found to update.")
    );
    assert_eq!(
        missing_row(Table::ClassSubjects, Change::Update),
        failure(FailureCode::OperationAborted, "No class_subject found with the given ID")
    );
    assert_eq!(missing_row(Table::Students, Change::Delete), StoreError::NoRows);
    assert_eq!(missing_row(Table::Staff, Change::Update), StoreError::NoRows);
}

#[test]
fn check_affected_needs_a_row() {
    assert_eq!(check_affected(Table::Sections, Change::Delete, 1), Ok(()));
    assert_eq!(check_affected(Table::Sections, Change::Update, 3), Ok(()));
    assert_eq!(
        check_affected(Table::Sections, Change::Update, 0),
        Err(failure(FailureCode::OperationAborted, "No section found with the given ID"))
    );
    assert_eq!(check_affected(Table::Complaints, Change::Delete, 0), Err(StoreError::NoRows));
}

#[test]
fn row_ids_keep_their_low_bits() {
    assert_eq!(id_of_rowid(17), 17);
    assert_eq!(id_of_rowid(i64::from(i32::MAX) + 1), i32::MIN);
}

#[test]
fn schema_starts_with_foreign_keys() {
    let s = schema();
    assert_eq!(s.len(), 14);
    assert_eq!(s[0].sql, FOREIGN_KEYS_SQL);
    assert_eq!(s[7].sql, STUDENTS_TABLE_SQL);
    assert!(s[7].sql.contains("UNIQUE (class_id, section_id, roll)"));
    assert!(s.iter().all(|st| st.params.is_empty()));
    assert!(s[1..].iter().all(|st| st.sql.starts_with("CREATE TABLE IF NOT EXISTS ")));
}
