//! Records for fees, payments, exams, results, salaries, finances, settings and timetables.
use crate::date::Date;
use vstd::prelude::*;

verus! {

/// Who a payment or a salary concerns.
#[derive(Debug, Clone, Copy, PartialEq, Eq, Structural)]
pub enum RelatedType {
    Guardian,
    Teacher,
    Staff,
}

/// Fees that a student pays instead of the class's fees.
#[derive(Debug, Clone, Copy, PartialEq, Eq, Structural)]
pub struct StudentFeeOverride {
    pub id: i32,
    pub student_id: i32,
    pub admission_fee: Option<i32>,
    pub monthly_fee: Option<i32>,
    pub readmission_fee: Option<i32>,
}

#[derive(Debug, Clone, Copy, PartialEq, Eq, Structural)]
pub enum FeeType {
    Admission,
    Monthly,
    Readmission,
}

#[derive(Debug, Clone, Copy, PartialEq, Eq, Structural)]
pub struct Payment {
    pub id: i32,
    pub student_id: i32,
    pub class_id: i32,
    pub amount: i32,
    pub payment_date: Date,
    pub fee_type: FeeType,
    pub payer_id: i32,
    pub payer_type: RelatedType,
}

#[derive(Debug, Clone, PartialEq)]
pub struct Exam {
    pub id: i32,
    /// Such as "Midterm" or "Final".
    pub name: String,
    pub class_id: i32,
    /// `None` where the exam is for all sections of the class.
    pub section_id: Option<i32>,
    /// In hundredths of the currency.
    pub exam_fee: i32,
}

/// A subject examined in an exam.
#[derive(Debug, Clone, Copy, PartialEq, Eq, Structural)]
pub struct ExamSubject {
    pub id: i32,
    pub exam_id: i32,
    pub subject_id: i32,
    pub exam_date: Date,
    /// Full marks for this subject in this exam.
    pub total_marks: i32,
}

#[derive(Debug, Clone, Copy, PartialEq, Eq, Structural)]
pub struct StudentResult {
    pub id: i32,
    pub student_id: i32,
    pub exam_subject_id: i32,
    pub obtained_marks: i32,
}

#[derive(Debug, Clone, PartialEq)]
pub struct SalaryPayment {
    pub id: i32,
    /// A teacher or another staff member.
    pub employee_id: i32,
    pub employee_type: RelatedType,
    /// In hundredths of the currency.
    pub amount: i32,
    pub payment_date: Date,
    /// Such as "April 2025".
    pub month: String,
    pub description: Option<String>,
}

#[derive(Debug, Clone, Copy, PartialEq, Eq, Structural)]
pub enum FinanceType {
    Income,
    Expense,
}

#[derive(Debug, Clone, PartialEq)]
pub struct FinanceEntry {
    pub id: i32,
    pub entry_type: FinanceType,
    /// Such as "Water Bill" or "Donation".
    pub title: String,
    /// In hundredths of the currency.
    pub amount: i32,
    pub date: Date,
    pub description: Option<String>,
}

pub struct ResidentFee {
    pub id: i32,
    pub student_id: i32,
    pub month: String,
    pub fee: i32,
    pub payment_date: Option<Date>,
}

/// The academy's settings; there is one, with id 1.
#[derive(Debug, Clone, PartialEq)]
pub struct AcademyConfig {
    pub id: i32,
    pub name: String,
    /// In hundredths of the currency.
    pub default_resident_fee: i32,
    pub contact_email: Option<String>,
    pub contact_phone: Option<String>,
    pub address: Option<String>,
}

/// Attendance at a class or an exam on one day.
#[derive(Debug, Clone, Copy, PartialEq, Eq, Structural)]
pub struct Attendance {
    pub id: i32,
    pub student_id: i32,
    pub date: Date,
    pub status: AttendanceStatus,
}

#[derive(Debug, Clone, Copy, PartialEq, Eq, Structural)]
pub enum AttendanceStatus {
    Present,
    Absent,
    Late,
}

/// A time of day, to the second.
#[derive(Debug, Clone, Copy, PartialEq, Eq, Structural)]
pub struct ClockTime {
    pub hour: u32,
    pub minute: u32,
    pub second: u32,
}

/// One lesson of a weekly timetable.
#[derive(Debug, Clone, PartialEq)]
pub struct ClassRoutine {
    pub id: i32,
    /// Such as "Monday".
    pub day_of_week: String,
    pub class_id: i32,
    pub section_id: i32,
    pub subject_id: i32,
    pub teacher_id: i32,
    pub start_time: ClockTime,
    pub end_time: ClockTime,
}

} // verus!
