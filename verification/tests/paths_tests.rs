use readtext::paths::{name_extension, path_extension};
use std::path::Path;

#[test]
fn extension_follows_the_last_dot() {
    assert_eq!(name_extension("photo.png"), Some("png".to_string()));
    assert_eq!(name_extension("archive.tar.gz"), Some("gz".to_string()));
    assert_eq!(name_extension("photo.PNG"), Some("PNG".to_string()));
}

#[test]
fn name_without_a_dot_has_no_extension() {
    assert_eq!(name_extension("README"), None);
    assert_eq!(name_extension(""), None);
}

#[test]
fn leading_dot_alone_makes_no_extension() {
    assert_eq!(name_extension(".gitignore"), None);
    assert_eq!(name_extension(".hidden.png"), Some("png".to_string()));
}

#[test]
fn trailing_dot_gives_the_empty_extension() {
    assert_eq!(name_extension("name."), Some(String::new()));
}

#[test]
fn extension_counts_characters_not_bytes() {
    assert_eq!(name_extension("ảnh.đẹp"), Some("đẹp".to_string()));
    assert_eq!(name_extension("tệp"), None);
}

#[test]
fn path_extension_reads_the_file_name_only() {
    assert_eq!(path_extension("/a/b.d/photo.png"), Some("png".to_string()));
    assert_eq!(path_extension("/a/b.d/photo"), None);
    assert_eq!(path_extension("/a/b.d/"), Some("d".to_string()));
    assert_eq!(path_extension("/"), None);
    assert_eq!(path_extension("/a/.."), None);
}

#[test]
fn path_extension_agrees_with_std() {
    let samples = [
        "/a/b/c.png",
        "c.PNG",
        "/a/b/.hidden",
        "/a/b/.hidden.svg",
        "/a/b/name.",
        "/a/b/noext",
        "/a.b/noext",
        "a/b/c.tar.gz",
        "",
        "/",
        "..",
        ".",
        "a/..",
        "a/.",
        "a/b.c/",
        "...",
        "a..b",
        "/x/My File.JPeG",
    ];
    for sample in samples {
        let expected = Path::new(sample).extension().map(|e| e.to_string_lossy().into_owned());
        assert_eq!(path_extension(sample), expected, "for {:?}", sample);
    }
}
