use save2read::routes::{archive_decision, link_rows, ArchiveDecision};
use save2read::text::i64_to_string;

#[test]
fn test_i64_to_string_values() {
    assert_eq!(i64_to_string(0), "0");
    assert_eq!(i64_to_string(7), "7");
    assert_eq!(i64_to_string(42), "42");
    assert_eq!(i64_to_string(-1), "-1");
    assert_eq!(i64_to_string(1000), "1000");
    assert_eq!(i64_to_string(i64::MAX), "9223372036854775807");
    assert_eq!(i64_to_string(i64::MIN), "-9223372036854775808");
}

#[test]
fn test_archive_decision_cases() {
    assert_eq!(archive_decision(None, 1, Some(5)), ArchiveDecision::Forbidden);
    assert_eq!(
        archive_decision(Some(5), 1, Some(5)),
        ArchiveDecision::Archive { user_id: 5, link_id: 1 }
    );
    // Someone else's link and a missing link look the same.
    assert_eq!(archive_decision(Some(5), 1, Some(6)), ArchiveDecision::NotFound);
    assert_eq!(archive_decision(Some(5), 1, None), ArchiveDecision::NotFound);
}

#[test]
fn test_link_rows_rendering() {
    let links = vec![
        (1i64, "http://link/".to_string(), Some("Title".to_string())),
        (2i64, "http://link1/".to_string(), None),
    ];
    let rows = link_rows(&links);
    assert_eq!(
        rows,
        vec![
            (
                "1".to_string(),
                "http://link/".to_string(),
                "Title".to_string()
            ),
            (
                "2".to_string(),
                "http://link1/".to_string(),
                "http://link1/".to_string()
            ),
        ]
    );
}

#[test]
fn test_link_rows_empty() {
    let links: Vec<(i64, String, Option<String>)> = vec![];
    assert!(link_rows(&links).is_empty());
}
