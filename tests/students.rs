use scholario::date::Date;
use scholario::store::{SqlValue, StoreError};
use scholario::student::{Attendance, Placement, Student, UpsertAction, AUTO_ROLL};

fn day(year: i32, month: u32, day: u32) -> Date {
    Date { year, month, day }
}

fn sample_attendance() -> Attendance {
    Attendance::new(7, 3, day(2024, 5, 6), "present".to_string())
}

#[test]
fn auto_roll_is_minus_one() {
    assert!(Student::wants_next_roll(-1));
    assert!(Student::wants_next_roll(AUTO_ROLL));
    assert!(!Student::wants_next_roll(0));
    assert!(!Student::wants_next_roll(5));
}

#[test]
fn next_roll_follows_the_count() {
    assert_eq!(Student::next_roll(0), Some(1));
    assert_eq!(Student::next_roll(29), Some(30));
    assert_eq!(Student::next_roll(i32::MAX - 1), Some(i32::MAX));
    assert_eq!(Student::next_roll(i32::MAX), None);
}

#[test]
fn roll_count_query_with_a_section() {
    let st = Student::roll_count_query(4, 2, Some(9));
    assert_eq!(
        st.sql,
        "SELECT COUNT(*) FROM students WHERE class_id = ? AND session_id = ? AND section_id = ?"
    );
    assert_eq!(st.params, vec![SqlValue::Integer(4), SqlValue::Integer(2), SqlValue::Integer(9)]);
}

#[test]
fn roll_count_query_without_a_section() {
    let st = Student::roll_count_query(4, 2, None);
    assert_eq!(
        st.sql,
        "SELECT COUNT(*) FROM students WHERE class_id = ? AND session_id = ? AND section_id IS NULL"
    );
    assert_eq!(st.params, vec![SqlValue::Integer(4), SqlValue::Integer(2)]);
}

const STUDENT_SELECT: &str = "SELECT id, name, class_id, section_id, session_id, dob, gender, religion, address, phone, admission_date, is_resident, roll, photo, health_notes, general_notes FROM students WHERE session_id = ?";

#[test]
fn list_query_by_session_only() {
    let st = Student::list_query(3, None, None);
    assert_eq!(st.sql, format!("{} ORDER BY roll ASC", STUDENT_SELECT));
    assert_eq!(st.params, vec![SqlValue::Integer(3)]);
}

#[test]
fn list_query_with_every_filter() {
    let st = Student::list_query(3, Some(5), Some(8));
    assert_eq!(
        st.sql,
        format!("{} AND class_id = ? AND section_id = ? ORDER BY roll ASC", STUDENT_SELECT)
    );
    assert_eq!(st.params, vec![SqlValue::Integer(3), SqlValue::Integer(5), SqlValue::Integer(8)]);
}

#[test]
fn list_query_with_section_but_no_class() {
    let st = Student::list_query(3, None, Some(8));
    assert_eq!(st.sql, format!("{} AND section_id = ? ORDER BY roll ASC", STUDENT_SELECT));
    assert_eq!(st.params, vec![SqlValue::Integer(3), SqlValue::Integer(8)]);
}

#[test]
fn renumber_statement_within_a_section() {
    let st = Student::renumber_statement(1, 2, Some(3), 4);
    assert_eq!(
        st.sql,
        "UPDATE students SET roll = roll - 1 WHERE session_id = ? AND class_id = ? AND section_id = ? AND roll > ?"
    );
    assert_eq!(
        st.params,
        vec![SqlValue::Integer(1), SqlValue::Integer(2), SqlValue::Integer(3), SqlValue::Integer(4)]
    );
}

#[test]
fn renumber_statement_without_a_section() {
    let st = Student::renumber_statement(1, 2, None, 4);
    assert_eq!(
        st.sql,
        "UPDATE students SET roll = roll - 1 WHERE session_id = ? AND class_id = ? AND section_id IS NULL AND roll > ?"
    );
    assert_eq!(st.params, vec![SqlValue::Integer(1), SqlValue::Integer(2), SqlValue::Integer(4)]);
}

#[test]
fn removal_of_a_missing_student_is_an_error() {
    let p = Placement { session_id: 1, class_id: 2, section_id: None, roll: 4 };
    assert_eq!(p.after_removal(0), Err(StoreError::NoRows));
}

#[test]
fn removal_closes_the_gap() {
    let p = Placement { session_id: 1, class_id: 2, section_id: Some(6), roll: 4 };
    assert_eq!(p.after_removal(1), Ok(Student::renumber_statement(1, 2, Some(6), 4)));
}

#[test]
fn attendance_by_date_query_filters() {
    let d = day(2024, 5, 6);
    let base = "SELECT a.id, a.student_id, a.date, a.status FROM attendance a JOIN students s ON a.student_id = s.id WHERE a.date = ? AND s.session_id = ?";
    let st = Attendance::by_date_query(d, 2, None, None);
    assert_eq!(st.sql, format!("{} ORDER BY a.student_id ASC", base));
    assert_eq!(st.params, vec![SqlValue::Day(d), SqlValue::Integer(2)]);
    let st = Attendance::by_date_query(d, 2, Some(4), Some(5));
    assert_eq!(
        st.sql,
        format!("{} AND s.class_id = ? AND s.section_id = ? ORDER BY a.student_id ASC", base)
    );
    assert_eq!(
        st.params,
        vec![SqlValue::Day(d), SqlValue::Integer(2), SqlValue::Integer(4), SqlValue::Integer(5)]
    );
}

#[test]
fn month_of_takes_missing_parts_from_today() {
    let today = day(2024, 12, 17);
    assert_eq!(
        Attendance::month_of(None, None, today),
        Ok((day(2024, 12, 1), day(2025, 1, 1)))
    );
    assert_eq!(
        Attendance::month_of(Some(2023), None, today),
        Ok((day(2023, 12, 1), day(2024, 1, 1)))
    );
    assert_eq!(
        Attendance::month_of(None, Some(2), today),
        Ok((day(2024, 2, 1), day(2024, 3, 1)))
    );
    assert_eq!(
        Attendance::month_of(Some(2020), Some(7), today),
        Ok((day(2020, 7, 1), day(2020, 8, 1)))
    );
    assert_eq!(Attendance::month_of(None, Some(13), today), Err(StoreError::InvalidQuery));
}

#[test]
fn period_with_year_and_month_given() {
    assert_eq!(Attendance::period(Some(2021), Some(3)), Ok((day(2021, 3, 1), day(2021, 4, 1))));
    assert_eq!(Attendance::period(Some(2021), Some(0)), Err(StoreError::InvalidQuery));
    let (first, next) = Attendance::period(None, None).unwrap();
    assert_eq!(first.day, 1);
    assert_eq!(first.first_of_next_month(), Some(next));
}

#[test]
fn first_insert_success_finishes() {
    assert_eq!(
        Attendance::after_insert(false, Ok(sample_attendance())),
        UpsertAction::Finish(Ok(sample_attendance()))
    );
    assert_eq!(
        Attendance::after_insert(true, Ok(sample_attendance())),
        UpsertAction::Finish(Ok(sample_attendance()))
    );
}

#[test]
fn duplicate_day_is_cleared_first() {
    let e = "UNIQUE constraint failed: attendance.student_id, attendance.date".to_string();
    assert_eq!(Attendance::after_insert(false, Err(e)), UpsertAction::ClearExisting);
}

#[test]
fn other_insert_failures_finish() {
    let e = "FOREIGN KEY constraint failed".to_string();
    assert_eq!(
        Attendance::after_insert(false, Err(e)),
        UpsertAction::Finish(Err("Insert failed: FOREIGN KEY constraint failed".to_string()))
    );
}

#[test]
fn second_insert_failure_finishes() {
    let e = "UNIQUE constraint failed: attendance.date".to_string();
    assert_eq!(
        Attendance::after_insert(true, Err(e)),
        UpsertAction::Finish(Err("Retry failed: UNIQUE constraint failed: attendance.date".to_string()))
    );
}

#[test]
fn clearing_leads_to_a_second_insert() {
    assert_eq!(Attendance::after_clear(Ok(())), UpsertAction::Reinsert);
    assert_eq!(
        Attendance::after_clear(Err("no such table".to_string())),
        UpsertAction::Finish(Err("Failed to delete existing record: no such table".to_string()))
    );
}

#[test]
fn student_new_keeps_every_field() {
    let s = Student::new(
        12,
        "Rahim",
        2,
        Some(3),
        1,
        day(2012, 4, 9),
        "MALE",
        "ISLAM",
        "Dhaka",
        Some("0123".to_string()),
        day(2024, 1, 2),
        true,
        7,
        None,
        Some("asthma".to_string()),
        None,
    );
    assert_eq!(s.id, 12);
    assert_eq!(s.name, "Rahim");
    assert_eq!(s.section_id, Some(3));
    assert_eq!(s.dob, day(2012, 4, 9));
    assert_eq!(s.gender, "MALE");
    assert_eq!(s.religion, "ISLAM");
    assert_eq!(s.address, "Dhaka");
    assert_eq!(s.phone, Some("0123".to_string()));
    assert_eq!(s.admission_date, day(2024, 1, 2));
    assert!(s.is_resident);
    assert_eq!(s.roll, 7);
    assert_eq!(s.photo, None);
    assert_eq!(s.health_notes, Some("asthma".to_string()));
    assert_eq!(s.general_notes, None);
}

#[test]
fn student_insert_binds_fields_in_column_order() {
    let s = Student::new(
        0,
        "Karim",
        2,
        None,
        1,
        day(2012, 4, 9),
        "MALE",
        "ISLAM",
        "Sylhet",
        None,
        day(2024, 1, 2),
        false,
        3,
        Some("photo".to_string()),
        None,
        Some("quiet".to_string()),
    );
    let st = Student::insert_statement(&s);
    assert!(st.sql.starts_with("INSERT INTO students (name, class_id, section_id, session_id, dob"));
    assert_eq!(
        st.params,
        vec![
            SqlValue::Text("Karim".to_string()),
            SqlValue::Integer(2),
            SqlValue::Null,
            SqlValue::Integer(1),
            SqlValue::Day(day(2012, 4, 9)),
            SqlValue::Text("MALE".to_string()),
            SqlValue::Text("ISLAM".to_string()),
            SqlValue::Text("Sylhet".to_string()),
            SqlValue::Null,
            SqlValue::Day(day(2024, 1, 2)),
            SqlValue::Integer(0),
            SqlValue::Integer(3),
            SqlValue::Text("photo".to_string()),
            SqlValue::Null,
            SqlValue::Text("quiet".to_string()),
        ]
    );
    let up = Student::update_statement(&Student { id: 44, ..s });
    assert_eq!(up.params.len(), 16);
    assert_eq!(up.params[15], SqlValue::Integer(44));
    assert!(up.sql.ends_with("general_notes = ?15 WHERE id = ?16"));
}

#[test]
fn attendance_range_and_day_statements() {
    let st = Attendance::select_in_range_statement(3, day(2024, 2, 1), day(2024, 3, 1));
    assert_eq!(
        st.sql,
        "SELECT id, student_id, date, status FROM attendance WHERE student_id = ?1 AND date >= ?2 AND date < ?3 ORDER BY date ASC"
    );
    assert_eq!(
        st.params,
        vec![SqlValue::Integer(3), SqlValue::Day(day(2024, 2, 1)), SqlValue::Day(day(2024, 3, 1))]
    );
    let st = Attendance::delete_day_statement(3, day(2024, 2, 5));
    assert_eq!(st.sql, "DELETE FROM attendance WHERE student_id = ?1 AND date = ?2");
    assert_eq!(st.params, vec![SqlValue::Integer(3), SqlValue::Day(day(2024, 2, 5))]);
    let st = Attendance::insert_statement(&sample_attendance());
    assert!(st.sql.starts_with("INSERT OR REPLACE INTO attendance"));
    assert_eq!(
        st.params,
        vec![SqlValue::Integer(3), SqlValue::Day(day(2024, 5, 6)), SqlValue::Text("present".to_string())]
    );
}

#[test]
fn period_with_one_part_missing() {
    let (first, next) = Attendance::period(Some(2021), None).unwrap();
    assert_eq!((first.year, first.day), (2021, 1));
    assert_eq!(first.first_of_next_month(), Some(next));
    let (first, next) = Attendance::period(None, Some(5)).unwrap();
    assert_eq!((first.month, first.day), (5, 1));
    assert_eq!(next, day(first.year, 6, 1));
}
