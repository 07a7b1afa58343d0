use readtext::index::{
    folder_metadata, has_folder_changed, image_record, index_directory_images, is_image_file,
    is_supported_extension, mtime_seconds, WalkItem,
};

fn entry(path: &str, is_file: bool) -> WalkItem {
    WalkItem::Entry { path: path.to_string(), is_file }
}

#[test]
fn supported_extensions_are_the_seven() {
    for ext in ["jpg", "jpeg", "png", "gif", "webp", "svg", "bmp"] {
        assert!(is_supported_extension(ext), "{}", ext);
    }
}

#[test]
fn other_extensions_are_not_supported() {
    for ext in ["", "txt", "md", "tiff", "pn", "pngx", "JPG", "Png", " png"] {
        assert!(!is_supported_extension(ext), "{:?}", ext);
    }
}

#[test]
fn image_files_are_told_by_extension_without_regard_to_case() {
    assert!(is_image_file("/assets/logo.png"));
    assert!(is_image_file("/assets/photo.PNG"));
    assert!(is_image_file("/assets/photo.JpEg"));
    assert!(is_image_file("C.BMP"));
    assert!(is_image_file("/a/.hidden.webp"));
}

#[test]
fn files_without_an_image_extension_are_passed_over() {
    assert!(!is_image_file("/docs/a.md"));
    assert!(!is_image_file("/docs/png"));
    assert!(!is_image_file("/docs/.png"));
    assert!(!is_image_file("/docs/archive.png.zip"));
    assert!(!is_image_file("/docs/noext"));
    assert!(!is_image_file(""));
}

#[test]
fn record_holds_name_path_and_lower_case_extension() {
    let record = image_record("/assets/sub dir/Photo One.PNG");
    assert_eq!(record.file_name, "Photo One.PNG");
    assert_eq!(record.full_path, "/assets/sub dir/Photo One.PNG");
    assert_eq!(record.extension, "png");
}

#[test]
fn record_of_a_path_without_name_or_extension_has_empty_fields() {
    let record = image_record("/");
    assert_eq!(record.file_name, "");
    assert_eq!(record.full_path, "/");
    assert_eq!(record.extension, "");
    let plain = image_record("/a/noext");
    assert_eq!(plain.file_name, "noext");
    assert_eq!(plain.extension, "");
}

#[test]
fn duplicate_record_is_equal_field_by_field() {
    let record = image_record("/assets/a.gif");
    let copy = record.duplicate();
    assert_eq!(copy.file_name, record.file_name);
    assert_eq!(copy.full_path, record.full_path);
    assert_eq!(copy.extension, record.extension);
}

#[test]
fn walk_keeps_image_files_in_order() {
    let items = vec![
        entry("/r", false),
        entry("/r/b.png", true),
        entry("/r/notes.md", true),
        WalkItem::Unreadable,
        entry("/r/sub", false),
        entry("/r/sub/a.JPG", true),
        entry("/r/dir.png", false),
        entry("/r/z.svg", true),
    ];
    let records = index_directory_images(&items);
    let paths: Vec<&str> = records.iter().map(|r| r.full_path.as_str()).collect();
    assert_eq!(paths, vec!["/r/b.png", "/r/sub/a.JPG", "/r/z.svg"]);
    assert_eq!(records[1].file_name, "a.JPG");
    assert_eq!(records[1].extension, "jpg");
}

#[test]
fn unreadable_entries_do_not_stop_the_walk() {
    let items = vec![WalkItem::Unreadable, WalkItem::Unreadable, entry("/r/a.bmp", true)];
    let records = index_directory_images(&items);
    assert_eq!(records.len(), 1);
    assert_eq!(records[0].full_path, "/r/a.bmp");
}

#[test]
fn empty_walk_gives_no_records() {
    assert!(index_directory_images(&Vec::new()).is_empty());
}

#[test]
fn unreadable_root_counts_as_changed() {
    assert!(has_folder_changed(None, None));
    assert!(has_folder_changed(None, Some(100)));
    assert!(has_folder_changed(None, Some(i64::MAX)));
}

#[test]
fn root_without_a_row_counts_as_changed() {
    assert!(has_folder_changed(Some(0), None));
    assert!(has_folder_changed(Some(-5), None));
}

#[test]
fn root_is_changed_only_when_strictly_later() {
    assert!(has_folder_changed(Some(101), Some(100)));
    assert!(!has_folder_changed(Some(100), Some(100)));
    assert!(!has_folder_changed(Some(99), Some(100)));
    assert!(has_folder_changed(Some(i64::MAX), Some(i64::MAX - 1)));
    assert!(!has_folder_changed(Some(i64::MIN), Some(i64::MIN)));
}

#[test]
fn mtime_is_the_count_of_seconds() {
    assert_eq!(mtime_seconds(Some(0)), 0);
    assert_eq!(mtime_seconds(Some(1_700_000_000)), 1_700_000_000);
    assert_eq!(mtime_seconds(Some(i64::MAX as u64)), i64::MAX);
}

#[test]
fn unknown_mtime_is_the_epoch() {
    assert_eq!(mtime_seconds(None), 0);
}

#[test]
fn mtime_beyond_the_signed_range_wraps() {
    assert_eq!(mtime_seconds(Some(i64::MAX as u64 + 1)), i64::MIN);
    assert_eq!(mtime_seconds(Some(u64::MAX)), -1);
    assert_eq!(mtime_seconds(Some(u64::MAX - 9)), (u64::MAX - 9) as i64);
}

#[test]
fn folder_row_leaves_the_count_unset() {
    let row = folder_metadata("/assets", 42);
    assert_eq!(row.path, "/assets");
    assert_eq!(row.last_modified, 42);
    assert_eq!(row.file_count, None);
}
