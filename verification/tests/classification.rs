use file_organizer::file_types::{FileCategory, FileSizeCategory, FileTypeClassifier};

#[test]
fn test_file_classification() {
    let classifier = FileTypeClassifier::new();

    assert_eq!(classifier.classify("test.jpg"), FileCategory::Images);
    assert_eq!(classifier.classify("document.pdf"), FileCategory::Documents);
    assert_eq!(classifier.classify("video.mp4"), FileCategory::Videos);
    assert_eq!(classifier.classify("song.mp3"), FileCategory::Audio);
    assert_eq!(classifier.classify("archive.zip"), FileCategory::Archives);
    assert_eq!(classifier.classify("script.rs"), FileCategory::Code);
    assert_eq!(classifier.classify("unknown.xyz"), FileCategory::Other);
}

#[test]
fn test_size_classification() {
    assert_eq!(FileSizeCategory::from_size(500_000), FileSizeCategory::Tiny);
    assert_eq!(FileSizeCategory::from_size(5_000_000), FileSizeCategory::Small);
    assert_eq!(FileSizeCategory::from_size(50_000_000), FileSizeCategory::Medium);
    assert_eq!(FileSizeCategory::from_size(500_000_000), FileSizeCategory::Large);
    assert_eq!(FileSizeCategory::from_size(2_000_000_000), FileSizeCategory::Huge);
}

#[test]
fn test_should_ignore() {
    let classifier = FileTypeClassifier::new();

    assert!(classifier.should_ignore(".hidden"));
    assert!(classifier.should_ignore(".DS_Store"));
    assert!(classifier.should_ignore("Thumbs.db"));
    assert!(!classifier.should_ignore("normal_file.txt"));
}

#[test]
fn classification_is_case_insensitive() {
    let classifier = FileTypeClassifier::new();

    assert_eq!(classifier.classify("a.JPG"), classifier.classify("a.jpg"));
    assert_eq!(classifier.classify("a.JPG"), FileCategory::Images);
    assert_eq!(classifier.classify("REPORT.PDF"), FileCategory::Documents);
    assert_eq!(classifier.classify("Movie.Mp4"), FileCategory::Videos);
}

#[test]
fn unknown_or_missing_extension_is_other() {
    let classifier = FileTypeClassifier::new();

    assert_eq!(classifier.classify("unknown.xyz"), FileCategory::Other);
    assert_eq!(classifier.classify("no_extension"), FileCategory::Other);
    assert_eq!(classifier.classify(".hidden"), FileCategory::Other);
    assert_eq!(classifier.classify("trailing."), FileCategory::Other);
    assert_eq!(classifier.classify(""), FileCategory::Other);
}

#[test]
fn multi_dot_names_classify_by_last_extension() {
    let classifier = FileTypeClassifier::new();

    assert_eq!(classifier.classify("archive.tar.gz"), FileCategory::Archives);
    assert_eq!(classifier.classify("notes.backup.txt"), FileCategory::Documents);
}

#[test]
fn ambiguous_installer_extensions_resolve_to_archives() {
    let classifier = FileTypeClassifier::new();

    assert_eq!(classifier.classify("setup.exe"), FileCategory::Archives);
    assert_eq!(classifier.classify("installer.msi"), FileCategory::Archives);
    assert_eq!(classifier.classify("package.deb"), FileCategory::Archives);
    assert_eq!(classifier.classify("package.rpm"), FileCategory::Archives);
    assert_eq!(classifier.classify("bundle.pkg"), FileCategory::Archives);
    assert_eq!(classifier.classify("image.dmg"), FileCategory::Archives);
    assert_eq!(classifier.classify("tool.app"), FileCategory::Executables);
}

#[test]
fn size_boundaries_are_inclusive() {
    assert_eq!(FileSizeCategory::from_size(1_048_576), FileSizeCategory::Tiny);
    assert_eq!(FileSizeCategory::from_size(1_048_577), FileSizeCategory::Small);
    assert_eq!(FileSizeCategory::from_size(10_485_760), FileSizeCategory::Small);
    assert_eq!(FileSizeCategory::from_size(10_485_761), FileSizeCategory::Medium);
    assert_eq!(FileSizeCategory::from_size(104_857_600), FileSizeCategory::Medium);
    assert_eq!(FileSizeCategory::from_size(104_857_601), FileSizeCategory::Large);
    assert_eq!(FileSizeCategory::from_size(1_073_741_824), FileSizeCategory::Large);
    assert_eq!(FileSizeCategory::from_size(1_073_741_825), FileSizeCategory::Huge);
    assert_eq!(FileSizeCategory::from_size(0), FileSizeCategory::Tiny);
}

#[test]
fn should_ignore_system_artifacts() {
    let classifier = FileTypeClassifier::new();

    assert!(!classifier.should_ignore("report.pdf"));
    assert!(classifier.should_ignore("Desktop.ini"));
    assert!(classifier.should_ignore("desktop.ini"));
    assert!(classifier.should_ignore("thumbs.db"));
    assert!(classifier.should_ignore("ehthumbs.db"));
    assert!(classifier.should_ignore("Icon\r"));
    assert!(!classifier.should_ignore("Icon"));
    assert!(!classifier.should_ignore(""));
}

#[test]
fn category_folder_names_and_emoji() {
    assert_eq!(FileCategory::Images.folder_name(), "Images");
    assert_eq!(FileCategory::Other.folder_name(), "Other");
    assert_eq!(FileCategory::Images.emoji(), "\u{1f5bc}\u{fe0f}");
    assert_eq!(FileCategory::Other.emoji(), "\u{1f4c2}");
    assert_eq!(FileSizeCategory::Tiny.folder_name(), "Tiny (< 1MB)");
    assert_eq!(FileSizeCategory::Huge.folder_name(), "Huge (> 1GB)");
    assert_eq!(FileSizeCategory::Tiny.emoji(), "\u{1f50d}");
}

#[test]
fn extensions_for_category_match_the_table() {
    let classifier = FileTypeClassifier::new();

    let images = classifier.get_extensions_for_category(&FileCategory::Images);
    assert!(images.contains(&"jpg".to_string()));
    assert!(images.contains(&"png".to_string()));
    assert_eq!(images.len(), 18);
    for ext in &images {
        assert_eq!(classifier.classify(&format!("f.{}", ext)), FileCategory::Images);
    }

    let other = classifier.get_extensions_for_category(&FileCategory::Other);
    assert!(other.is_empty());

    let fonts = classifier.get_extensions_for_category(&FileCategory::Fonts);
    for ext in &fonts {
        assert_eq!(classifier.classify(&format!("f.{}", ext)), FileCategory::Fonts);
    }
}
