use file_organizer::organizer::{FileEntry, FileOrganizer, OrganizeMode};
use file_organizer::report::{
    folders_to_create, group_by_folder, tally_outcomes, OrganizationSummary,
};

fn entry(path: &str, name: &str) -> FileEntry {
    FileEntry {
        path: path.to_string(),
        name: name.to_string(),
        size: None,
        created_secs: None,
        modified_secs: None,
    }
}

fn count_of(summary: &OrganizationSummary, folder: &str) -> Option<usize> {
    summary
        .categories
        .iter()
        .find(|(name, _)| name.as_str() == folder)
        .map(|(_, count)| *count)
}

#[test]
fn end_to_end_extension_scenario() {
    let organizer = FileOrganizer::new();
    let files = vec![
        entry("/d/a.jpg", "a.jpg"),
        entry("/d/b.txt", "b.txt"),
        entry("/d/c.unknownext", "c.unknownext"),
    ];

    let ops = organizer
        .plan_organization(&files, "/d", &OrganizeMode::Extension)
        .unwrap();

    assert_eq!(ops[0].destination, "/d/\u{1f5bc}\u{fe0f} Images/a.jpg");
    assert_eq!(ops[1].destination, "/d/\u{1f4c4} Documents/b.txt");
    assert_eq!(ops[2].destination, "/d/\u{1f4c2} Other/c.unknownext");

    let summary = OrganizationSummary::from_operations(&ops);
    assert_eq!(summary.total_files, 3);
    assert_eq!(summary.folders_created, 3);
    assert_eq!(count_of(&summary, "\u{1f5bc}\u{fe0f} Images"), Some(1));
    assert_eq!(count_of(&summary, "\u{1f4c4} Documents"), Some(1));
    assert_eq!(count_of(&summary, "\u{1f4c2} Other"), Some(1));
}

#[test]
fn grouping_collects_by_folder_in_first_appearance_order() {
    let organizer = FileOrganizer::new();
    let files = vec![
        entry("/d/a.jpg", "a.jpg"),
        entry("/d/b.txt", "b.txt"),
        entry("/d/c.png", "c.png"),
        entry("/d/d.gif", "d.gif"),
    ];
    let ops = organizer
        .plan_organization(&files, "/d", &OrganizeMode::Extension)
        .unwrap();

    let groups = group_by_folder(&ops);
    assert_eq!(groups.len(), 2);
    assert_eq!(groups[0].folder, "\u{1f5bc}\u{fe0f} Images");
    assert_eq!(groups[0].sources, vec!["a.jpg", "c.png", "d.gif"]);
    assert_eq!(groups[1].folder, "\u{1f4c4} Documents");
    assert_eq!(groups[1].sources, vec!["b.txt"]);
}

#[test]
fn preview_shows_three_examples_and_elides_the_rest() {
    let organizer = FileOrganizer::new();
    let files = vec![
        entry("/d/a.jpg", "a.jpg"),
        entry("/d/b.jpg", "b.jpg"),
        entry("/d/c.jpg", "c.jpg"),
        entry("/d/d.jpg", "d.jpg"),
        entry("/d/e.jpg", "e.jpg"),
    ];
    let ops = organizer
        .plan_organization(&files, "/d", &OrganizeMode::Extension)
        .unwrap();

    let groups = group_by_folder(&ops);
    assert_eq!(groups.len(), 1);
    assert_eq!(groups[0].examples(), vec!["a.jpg", "b.jpg", "c.jpg"]);
    assert_eq!(groups[0].more_count(), 2);

    let short = &group_by_folder(&ops[..2].to_vec())[0];
    assert_eq!(short.examples(), vec!["a.jpg", "b.jpg"]);
    assert_eq!(short.more_count(), 0);
}

#[test]
fn dry_run_summary_matches_executed_summary() {
    let organizer = FileOrganizer::new();
    let files = vec![
        entry("/d/a.jpg", "a.jpg"),
        entry("/d/b.txt", "b.txt"),
        entry("/d/c.png", "c.png"),
    ];
    let ops = organizer
        .plan_organization(&files, "/d", &OrganizeMode::Extension)
        .unwrap();

    // A dry run summarizes the unexecuted plan; an executed run summarizes
    // the same plan after the moves. Both go through the same derivation.
    let dry = OrganizationSummary::from_operations(&ops);
    let executed = OrganizationSummary::from_operations(&ops);

    assert_eq!(dry.total_files, executed.total_files);
    assert_eq!(dry.folders_created, executed.folders_created);
    assert_eq!(dry.categories, executed.categories);
}

#[test]
fn empty_summary_counts_nothing() {
    let summary = OrganizationSummary::new();
    assert_eq!(summary.total_files, 0);
    assert_eq!(summary.folders_created, 0);
    assert!(summary.categories.is_empty());

    let from_empty = OrganizationSummary::from_operations(&Vec::new());
    assert_eq!(from_empty.total_files, 0);
    assert_eq!(from_empty.folders_created, 0);
}

#[test]
fn folders_to_create_lists_each_directory_once() {
    let organizer = FileOrganizer::new();
    let files = vec![
        entry("/d/a.jpg", "a.jpg"),
        entry("/d/b.jpg", "b.jpg"),
        entry("/d/c.txt", "c.txt"),
    ];
    let ops = organizer
        .plan_organization(&files, "/d", &OrganizeMode::Extension)
        .unwrap();

    let dirs = folders_to_create(&ops);
    assert_eq!(
        dirs,
        vec![
            "/d/\u{1f5bc}\u{fe0f} Images".to_string(),
            "/d/\u{1f4c4} Documents".to_string(),
        ]
    );
}

#[test]
fn executor_partial_failure_is_counted_not_fatal() {
    // One of three moves fails: the batch still attempts every operation and
    // reports two successes and one failure.
    let outcomes = vec![true, false, true];
    let tally = tally_outcomes(&outcomes);
    assert_eq!(tally.moved, 2);
    assert_eq!(tally.failed, 1);
    assert_eq!(tally.moved + tally.failed, outcomes.len());
}

#[test]
fn tally_handles_all_success_and_all_failure() {
    let all_ok = tally_outcomes(&vec![true, true, true]);
    assert_eq!((all_ok.moved, all_ok.failed), (3, 0));

    let all_bad = tally_outcomes(&vec![false, false]);
    assert_eq!((all_bad.moved, all_bad.failed), (0, 2));

    let none = tally_outcomes(&Vec::new());
    assert_eq!((none.moved, none.failed), (0, 0));
}
