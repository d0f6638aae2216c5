use scholario::text::contains_text;

#[test]
fn contains_text_finds_infixes() {
    assert!(contains_text("UNIQUE constraint failed: attendance.student_id", "UNIQUE constraint failed"));
    assert!(contains_text("error: UNIQUE constraint failed", "UNIQUE constraint failed"));
    assert!(contains_text("abc", "abc"));
    assert!(contains_text("abc", "c"));
    assert!(contains_text("abc", ""));
    assert!(contains_text("", ""));
    assert!(contains_text("aaab", "aab"));
    assert!(contains_text("gröẞe", "öẞ"));
}

#[test]
fn contains_text_rejects_absent_text() {
    assert!(!contains_text("FOREIGN KEY constraint failed", "UNIQUE constraint failed"));
    assert!(!contains_text("UNIQUE constraint", "UNIQUE constraint failed"));
    assert!(!contains_text("", "a"));
    assert!(!contains_text("abc", "abd"));
    assert!(!contains_text("unique constraint failed", "UNIQUE constraint failed"));
}
