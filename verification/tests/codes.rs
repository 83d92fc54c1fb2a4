use todoist_core::colors::Colors;
use todoist_core::priority::Priority;
use todoist_core::text::str_eq;

#[test]
fn color_code_test() {
    assert_eq!(Colors::BerryRed.code(), 30);
    assert_eq!(Colors::Grey.code(), 48);
    assert_eq!(Colors::Taupe.code(), 49);
    assert_eq!(Colors::default(), Colors::Grey);

    for code in 30..50 {
        let color = Colors::from_code(code).unwrap();
        assert_eq!(color.code(), code);
    }
    assert_eq!(Colors::from_code(29), None);
    assert_eq!(Colors::from_code(50), None);
}

#[test]
fn priority_code_test() {
    assert_eq!(Priority::P1.code(), 4);
    assert_eq!(Priority::P2.code(), 3);
    assert_eq!(Priority::P3.code(), 2);
    assert_eq!(Priority::P4.code(), 1);
    assert_eq!(Priority::default(), Priority::P4);

    for code in 1..5 {
        let priority = Priority::from_code(code).unwrap();
        assert_eq!(priority.code(), code);
    }
    assert_eq!(Priority::from_code(0), None);
    assert_eq!(Priority::from_code(5), None);
}

#[test]
fn str_eq_test() {
    assert!(str_eq("Inbox", "Inbox"));
    assert!(!str_eq("Inbox", "inbox"));
    assert!(!str_eq("", "a"));
    assert!(str_eq("", ""));
}
