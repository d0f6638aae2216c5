//! Records of a school: sessions, classes, sections, subjects, students, guardians, staff and
//! attendance, with the rules that decide what is stored and what is answered.
pub mod class;
pub mod date;
pub mod extra;
pub mod guardian;
pub mod schema;
pub mod session;
pub mod staff;
pub mod store;
pub mod student;
pub mod subject;
pub mod teacher;
pub mod text;
