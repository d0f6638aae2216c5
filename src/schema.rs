//! The tables that hold the records, with their keys, links and uniqueness rules.
use crate::store::{SqlCell, Statement};
use vstd::prelude::*;

verus! {

pub const FOREIGN_KEYS_SQL: &'static str = "PRAGMA foreign_keys = ON";

pub const SESSIONS_TABLE_SQL: &'static str = "CREATE TABLE IF NOT EXISTS sessions (\
    id INTEGER PRIMARY KEY AUTOINCREMENT, \
    name TEXT NOT NULL UNIQUE, \
    start_date TEXT NOT NULL, \
    end_date TEXT NOT NULL)";

pub const SUBJECTS_TABLE_SQL: &'static str = "CREATE TABLE IF NOT EXISTS subjects (\
    id INTEGER PRIMARY KEY AUTOINCREMENT, \
    name TEXT NOT NULL UNIQUE, \
    code INTEGER NOT NULL UNIQUE)";

pub const CLASS_SUBJECTS_TABLE_SQL: &'static str = "CREATE TABLE IF NOT EXISTS class_subjects (\
    id INTEGER PRIMARY KEY AUTOINCREMENT, \
    class_id INTEGER NOT NULL, \
    subject_id INTEGER NOT NULL, \
    is_mandatory BOOLEAN NOT NULL, \
    FOREIGN KEY (class_id) REFERENCES classes(id) ON DELETE CASCADE, \
    FOREIGN KEY (subject_id) REFERENCES subjects(id) ON DELETE CASCADE, \
    UNIQUE (class_id, subject_id))";

pub const CLASSES_TABLE_SQL: &'static str = "CREATE TABLE IF NOT EXISTS classes (\
    id INTEGER PRIMARY KEY AUTOINCREMENT, \
    name TEXT NOT NULL UNIQUE, \
    level INTEGER NOT NULL, \
    admission_fee INTEGER NOT NULL, \
    monthly_fee INTEGER NOT NULL, \
    readmission_fee INTEGER NOT NULL, \
    session_id INTEGER NOT NULL, \
    FOREIGN KEY (session_id) REFERENCES sessions(id) ON DELETE CASCADE)";

pub const SECTIONS_TABLE_SQL: &'static str = "CREATE TABLE IF NOT EXISTS sections (\
    id INTEGER PRIMARY KEY AUTOINCREMENT, \
    class_id INTEGER NOT NULL, \
    name TEXT NOT NULL, \
    UNIQUE (class_id, name), \
    FOREIGN KEY (class_id) REFERENCES classes(id) ON DELETE CASCADE)";

pub const GUARDIANS_TABLE_SQL: &'static str = "CREATE TABLE IF NOT EXISTS guardians (\
    id INTEGER PRIMARY KEY AUTOINCREMENT, \
    name TEXT NOT NULL, \
    phone TEXT NOT NULL UNIQUE, \
    address TEXT, \
    photo TEXT)";

pub const STUDENTS_TABLE_SQL: &'static str = "CREATE TABLE IF NOT EXISTS students (\
    id INTEGER PRIMARY KEY AUTOINCREMENT, \
    name TEXT NOT NULL, \
    class_id INTEGER NOT NULL, \
    section_id INTEGER, \
    session_id INTEGER NOT NULL, \
    dob DATE NOT NULL, \
    gender TEXT NOT NULL, \
    religion TEXT NOT NULL, \
    address TEXT NOT NULL, \
    phone TEXT, \
    admission_date DATE NOT NULL, \
    is_resident BOOLEAN NOT NULL, \
    roll INTEGER NOT NULL, \
    photo TEXT, \
    health_notes TEXT, \
    general_notes TEXT, \
    FOREIGN KEY (class_id) REFERENCES classes(id) ON DELETE RESTRICT, \
    FOREIGN KEY (session_id) REFERENCES sessions(id) ON DELETE CASCADE, \
    FOREIGN KEY (section_id) REFERENCES sections(id) ON DELETE SET NULL, \
    UNIQUE (class_id, section_id, roll))";

pub const STUDENT_RELATIONSHIPS_TABLE_SQL: &'static str =
    "CREATE TABLE IF NOT EXISTS student_relationships (\
    id INTEGER PRIMARY KEY AUTOINCREMENT, \
    student_id INTEGER NOT NULL, \
    related_id INTEGER NOT NULL, \
    relationship TEXT, \
    FOREIGN KEY (student_id) REFERENCES students(id) ON DELETE CASCADE)";

pub const ATTENDANCE_TABLE_SQL: &'static str = "CREATE TABLE IF NOT EXISTS attendance (\
    id INTEGER PRIMARY KEY AUTOINCREMENT, \
    student_id INTEGER NOT NULL, \
    date DATE NOT NULL, \
    status TEXT NOT NULL, \
    FOREIGN KEY (student_id) REFERENCES students(id) ON DELETE CASCADE, \
    UNIQUE (student_id, date))";

pub const STAFFS_TABLE_SQL: &'static str = "CREATE TABLE IF NOT EXISTS staffs (\
    id INTEGER PRIMARY KEY AUTOINCREMENT, \
    name TEXT NOT NULL, \
    phone TEXT NOT NULL, \
    address TEXT NOT NULL, \
    salary INTEGER NOT NULL, \
    hire_date DATE NOT NULL, \
    photo TEXT, \
    is_teacher BOOLEAN NOT NULL, \
    role TEXT NOT NULL, \
    qualification TEXT NOT NULL, \
    general_note TEXT, \
    health_note TEXT)";

pub const COMPLAINTS_TABLE_SQL: &'static str = "CREATE TABLE IF NOT EXISTS complaints (\
    id INTEGER PRIMARY KEY AUTOINCREMENT, \
    staff_id INTEGER NOT NULL, \
    date DATE NOT NULL, \
    text TEXT NOT NULL, \
    level TEXT NOT NULL, \
    FOREIGN KEY (staff_id) REFERENCES staffs(id) ON DELETE CASCADE)";

pub const STAFF_ATTENDANCE_TABLE_SQL: &'static str = "CREATE TABLE IF NOT EXISTS attendance_staff (\
    id INTEGER PRIMARY KEY AUTOINCREMENT, \
    staff_id INTEGER NOT NULL, \
    date DATE NOT NULL, \
    status TEXT NOT NULL, \
    FOREIGN KEY (staff_id) REFERENCES staffs(id) ON DELETE CASCADE, \
    UNIQUE (staff_id, date))";

pub const TEACHER_CLASS_SUBJECTS_TABLE_SQL: &'static str =
    "CREATE TABLE IF NOT EXISTS teacher_class_subjects (\
    id INTEGER PRIMARY KEY AUTOINCREMENT, \
    teacher_id INTEGER NOT NULL, \
    session_id INTEGER NOT NULL, \
    class_id INTEGER NOT NULL, \
    section_id INTEGER, \
    subject_id INTEGER NOT NULL, \
    FOREIGN KEY (teacher_id) REFERENCES staffs(id) ON DELETE CASCADE, \
    FOREIGN KEY (session_id) REFERENCES sessions(id) ON DELETE CASCADE, \
    FOREIGN KEY (class_id) REFERENCES classes(id) ON DELETE CASCADE, \
    FOREIGN KEY (section_id) REFERENCES sections(id) ON DELETE CASCADE, \
    FOREIGN KEY (subject_id) REFERENCES subjects(id) ON DELETE CASCADE)";

/// The statements that set up the store, in the order they run: foreign keys are enforced
/// first, then each table is created where it is missing.
pub open spec fn schema_sql() -> Seq<Seq<char>> {
    seq![
        FOREIGN_KEYS_SQL@,
        SESSIONS_TABLE_SQL@,
        SUBJECTS_TABLE_SQL@,
        CLASS_SUBJECTS_TABLE_SQL@,
        CLASSES_TABLE_SQL@,
        SECTIONS_TABLE_SQL@,
        GUARDIANS_TABLE_SQL@,
        STUDENTS_TABLE_SQL@,
        STUDENT_RELATIONSHIPS_TABLE_SQL@,
        ATTENDANCE_TABLE_SQL@,
        STAFFS_TABLE_SQL@,
        COMPLAINTS_TABLE_SQL@,
        STAFF_ATTENDANCE_TABLE_SQL@,
        TEACHER_CLASS_SUBJECTS_TABLE_SQL@,
    ]
}

/// The statements that set up the store, none with placeholders.
pub fn schema() -> (r: Vec<Statement>)
    ensures
        r@.len() == schema_sql().len(),
        forall|i: int| 0 <= i < r@.len() ==> #[trigger] r@[i]@ == (schema_sql()[i], Seq::<SqlCell>::empty()),
{
    let texts: [&'static str; 14] = [
        FOREIGN_KEYS_SQL,
        SESSIONS_TABLE_SQL,
        SUBJECTS_TABLE_SQL,
        CLASS_SUBJECTS_TABLE_SQL,
        CLASSES_TABLE_SQL,
        SECTIONS_TABLE_SQL,
        GUARDIANS_TABLE_SQL,
        STUDENTS_TABLE_SQL,
        STUDENT_RELATIONSHIPS_TABLE_SQL,
        ATTENDANCE_TABLE_SQL,
        STAFFS_TABLE_SQL,
        COMPLAINTS_TABLE_SQL,
        STAFF_ATTENDANCE_TABLE_SQL,
        TEACHER_CLASS_SUBJECTS_TABLE_SQL,
    ];
    assert(texts@.map_values(|t: &str| t@) =~= schema_sql());
    let mut r: Vec<Statement> = Vec::new();
    let mut i: usize = 0;
    while i < 14
        invariant
            i <= 14,
            texts@.map_values(|t: &str| t@) == schema_sql(),
            r@.len() == i,
            forall|j: int| 0 <= j < i ==> #[trigger] r@[j]@ == (schema_sql()[j], Seq::<SqlCell>::empty()),
        decreases 14 - i,
    {
        assert(texts@[i as int]@ == schema_sql()[i as int]);
        r.push(Statement::with_text(texts[i]));
        i = i + 1;
    }
    r
}

} // verus!
