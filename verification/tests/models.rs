//! Tests of the resource records and of the canonical filter strings.

use osapi::{Campus, College, Day, Group, Week, Weekday};

#[test]
fn test_week_display() {
    assert_eq!(Week::Previous.as_str(), "previous");
    assert_eq!(Week::Current.as_str(), "current");
    assert_eq!(Week::Next.as_str(), "next");
}

#[test]
fn test_weekday_display() {
    assert_eq!(Weekday::Monday.as_str(), "monday");
    assert_eq!(Weekday::Tuesday.as_str(), "tuesday");
    assert_eq!(Weekday::Wednesday.as_str(), "wednesday");
    assert_eq!(Weekday::Thursday.as_str(), "thursday");
    assert_eq!(Weekday::Friday.as_str(), "friday");
    assert_eq!(Weekday::Saturday.as_str(), "saturday");
    assert_eq!(Weekday::Sunday.as_str(), "sunday");
}

#[test]
fn test_day_display() {
    assert_eq!(Day::Today.as_str(), "today");
    assert_eq!(Day::Tomorrow.as_str(), "tomorrow");
}

#[test]
fn test_model_defaults() {
    let college = College {
        college_id: 1,
        name: "Test".to_string(),
        calls: vec![],
        campuses: vec![],
    };

    let campus = Campus {
        id: 1,
        name: "Test Campus".to_string(),
        college_id: 1,
        groups: vec![],
    };

    let group = Group {
        id: 1,
        name: "Group A".to_string(),
        campus_id: 1,
    };

    assert_eq!(college.college_id, 1);
    assert_eq!(campus.id, 1);
    assert_eq!(group.id, 1);
}
