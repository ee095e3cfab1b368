use file_organizer::organizer::{FileEntry, FileOrganizer, OrganizeMode, PlanError};

fn entry(path: &str, name: &str) -> FileEntry {
    FileEntry {
        path: path.to_string(),
        name: name.to_string(),
        size: None,
        created_secs: None,
        modified_secs: None,
    }
}

fn entry_with_size(path: &str, name: &str, size: u64) -> FileEntry {
    FileEntry { size: Some(size), ..entry(path, name) }
}

#[test]
fn extension_mode_plans_into_category_folders() {
    let organizer = FileOrganizer::new();
    let files = vec![entry("/d/a.jpg", "a.jpg"), entry("/d/b.txt", "b.txt")];

    let ops = organizer
        .plan_organization(&files, "/d", &OrganizeMode::Extension)
        .unwrap();

    assert_eq!(ops.len(), 2);
    assert_eq!(ops[0].source, "/d/a.jpg");
    assert_eq!(ops[0].destination, "/d/\u{1f5bc}\u{fe0f} Images/a.jpg");
    assert_eq!(ops[1].destination, "/d/\u{1f4c4} Documents/b.txt");
}

#[test]
fn size_mode_plans_into_bucket_folders() {
    let organizer = FileOrganizer::new();
    let files = vec![
        entry_with_size("/d/small.bin", "small.bin", 1_000),
        entry_with_size("/d/big.bin", "big.bin", 2_000_000_000),
    ];

    let ops = organizer.plan_organization(&files, "/d", &OrganizeMode::Size).unwrap();

    assert_eq!(ops[0].destination, "/d/\u{1f50d} Tiny (< 1MB)/small.bin");
    assert_eq!(ops[1].destination, "/d/\u{1f5c3}\u{fe0f} Huge (> 1GB)/big.bin");
}

#[test]
fn size_mode_fails_fast_on_missing_metadata() {
    let organizer = FileOrganizer::new();
    let files = vec![
        entry_with_size("/d/ok.bin", "ok.bin", 10),
        entry("/d/bad.bin", "bad.bin"),
        entry_with_size("/d/later.bin", "later.bin", 10),
    ];

    let err = organizer.plan_organization(&files, "/d", &OrganizeMode::Size).unwrap_err();
    assert_eq!(err, PlanError::MetadataUnavailable { path: "/d/bad.bin".to_string() });
}

#[test]
fn date_mode_formats_utc_year_month() {
    let organizer = FileOrganizer::new();
    let mut e = entry("/d/a.txt", "a.txt");
    // 2023-11-14T22:13:20 UTC
    e.created_secs = Some(1_700_000_000);
    let ops = organizer.plan_organization(&vec![e], "/d", &OrganizeMode::Date).unwrap();
    assert_eq!(ops[0].destination, "/d/\u{1f4c5} 2023-11/a.txt");
}

#[test]
fn date_mode_falls_back_to_modification_time() {
    let organizer = FileOrganizer::new();
    let mut e = entry("/d/a.txt", "a.txt");
    // 2001-09-09T01:46:40 UTC
    e.modified_secs = Some(1_000_000_000);
    let ops = organizer.plan_organization(&vec![e], "/d", &OrganizeMode::Date).unwrap();
    assert_eq!(ops[0].destination, "/d/\u{1f4c5} 2001-09/a.txt");

    let bare = entry("/d/b.txt", "b.txt");
    let err = organizer
        .plan_organization(&vec![bare], "/d", &OrganizeMode::Date)
        .unwrap_err();
    assert_eq!(err, PlanError::TimestampUnavailable { path: "/d/b.txt".to_string() });
}

#[test]
fn modified_mode_uses_modification_time_only() {
    let organizer = FileOrganizer::new();
    let mut e = entry("/d/a.txt", "a.txt");
    e.created_secs = Some(1_700_000_000);
    e.modified_secs = Some(1_000_000_000);
    let ops = organizer
        .plan_organization(&vec![e], "/d", &OrganizeMode::Modified)
        .unwrap();
    assert_eq!(ops[0].destination, "/d/\u{1f552} 2001-09/a.txt");

    let mut only_created = entry("/d/b.txt", "b.txt");
    only_created.created_secs = Some(1_700_000_000);
    let err = organizer
        .plan_organization(&vec![only_created], "/d", &OrganizeMode::Modified)
        .unwrap_err();
    assert_eq!(err, PlanError::TimestampUnavailable { path: "/d/b.txt".to_string() });
}

#[test]
fn out_of_range_timestamp_aborts_planning() {
    let organizer = FileOrganizer::new();
    let mut e = entry("/d/a.txt", "a.txt");
    e.modified_secs = Some(i64::MAX);
    let err = organizer
        .plan_organization(&vec![e], "/d", &OrganizeMode::Modified)
        .unwrap_err();
    assert_eq!(err, PlanError::TimestampOutOfRange { path: "/d/a.txt".to_string() });
}

#[test]
fn custom_mode_uses_the_placeholder_folder() {
    let organizer = FileOrganizer::new();
    let ops = organizer
        .plan_organization(&vec![entry("/d/a.q", "a.q")], "/d", &OrganizeMode::Custom)
        .unwrap();
    assert_eq!(ops[0].destination, "/d/\u{1f4c2} Custom/a.q");
}

#[test]
fn planning_twice_gives_identical_destinations() {
    let organizer = FileOrganizer::new();
    let files = vec![
        entry("/d/a.jpg", "a.jpg"),
        entry("/d/b.txt", "b.txt"),
        entry("/d/c.unknownext", "c.unknownext"),
    ];

    let ops1 = organizer
        .plan_organization(&files, "/d", &OrganizeMode::Extension)
        .unwrap();
    let ops2 = organizer
        .plan_organization(&files, "/d", &OrganizeMode::Extension)
        .unwrap();

    assert_eq!(ops1.len(), ops2.len());
    for (a, b) in ops1.iter().zip(ops2.iter()) {
        assert_eq!(a.source, b.source);
        assert_eq!(a.destination, b.destination);
    }
}

#[test]
fn no_filter_passes_everything_through() {
    let organizer = FileOrganizer::new();
    let files = vec![entry("/d/a.jpg", "a.jpg"), entry("/d/b.png", "b.png")];

    let kept = organizer.apply_filter(&files, None);
    assert_eq!(kept.len(), 2);
    assert_eq!(kept[0].name, "a.jpg");
    assert_eq!(kept[1].name, "b.png");
}

#[test]
fn filter_keeps_only_matching_extensions() {
    let organizer = FileOrganizer::new();
    let files = vec![entry("/d/a.jpg", "a.jpg"), entry("/d/b.png", "b.png")];

    let kept = organizer.filter_files(&files, &vec!["jpg".to_string()]);
    assert_eq!(kept.len(), 1);
    assert_eq!(kept[0].name, "a.jpg");

    let kept2 = organizer.apply_filter(&files, Some(&vec!["jpg".to_string()]));
    assert_eq!(kept2.len(), 1);
    assert_eq!(kept2[0].name, "a.jpg");
}

#[test]
fn filter_is_case_insensitive_and_skips_extensionless_files() {
    let organizer = FileOrganizer::new();
    let files = vec![
        entry("/d/a.JPG", "a.JPG"),
        entry("/d/noext", "noext"),
        entry("/d/b.png", "b.png"),
    ];

    let kept = organizer.filter_files(&files, &vec!["jpg".to_string()]);
    assert_eq!(kept.len(), 1);
    assert_eq!(kept[0].name, "a.JPG");

    let none_kept = organizer.filter_files(&files, &vec![]);
    assert!(none_kept.is_empty());
}
