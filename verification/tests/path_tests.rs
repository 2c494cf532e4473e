use flicks::path::{extension, file_name, is_image_path, join};

#[test]
fn file_name_of_plain_paths() {
    assert_eq!(file_name("pictures/cat.jpg"), Some("cat.jpg"));
    assert_eq!(file_name("cat.jpg"), Some("cat.jpg"));
    assert_eq!(file_name("/tmp/a/b.png"), Some("b.png"));
}

#[test]
fn file_name_skips_trailing_separators_and_dots() {
    assert_eq!(file_name("foo.txt/."), Some("foo.txt"));
    assert_eq!(file_name("foo.txt/.//"), Some("foo.txt"));
    assert_eq!(file_name("dir/"), Some("dir"));
    assert_eq!(file_name("./cat.jpg"), Some("cat.jpg"));
}

#[test]
fn file_name_absent() {
    assert_eq!(file_name(""), None);
    assert_eq!(file_name("/"), None);
    assert_eq!(file_name("."), None);
    assert_eq!(file_name("./"), None);
    assert_eq!(file_name("a/.."), None);
    assert_eq!(file_name(".."), None);
}

#[test]
fn file_name_agrees_with_std() {
    for p in ["a/b/c.jpg", "a//b", "a/./", "/x/..", "..a", "a/.b.", "x/y/z/", "a/b/."] {
        let expected = std::path::Path::new(p).file_name().map(|n| n.to_str().unwrap());
        assert_eq!(file_name(p), expected, "path {:?}", p);
        let expected_ext = std::path::Path::new(p).extension().map(|n| n.to_str().unwrap());
        assert_eq!(extension(p), expected_ext, "path {:?}", p);
    }
}

#[test]
fn extension_cases() {
    assert_eq!(extension("cat.jpg"), Some("jpg"));
    assert_eq!(extension("archive.tar.gz"), Some("gz"));
    assert_eq!(extension(".bashrc"), None);
    assert_eq!(extension("noext"), None);
    assert_eq!(extension("dot."), Some(""));
    assert_eq!(extension("dir.d/file"), None);
    assert_eq!(extension("a/.."), None);
}

#[test]
fn image_paths() {
    assert!(is_image_path("a/cat.jpg"));
    assert!(is_image_path("dog.png"));
    assert!(!is_image_path("dog.PNG"));
    assert!(!is_image_path("dog.jpeg"));
    assert!(!is_image_path("jpg"));
    assert!(!is_image_path(".png"));
    assert!(!is_image_path("notes.txt"));
}

#[test]
fn join_cases() {
    assert_eq!(join("used", "cat.jpg"), "used/cat.jpg");
    assert_eq!(join("used/", "cat.jpg"), "used/cat.jpg");
    assert_eq!(join("", "cat.jpg"), "cat.jpg");
    assert_eq!(join("used", "/abs/cat.jpg"), "/abs/cat.jpg");
    for (b, n) in [("a", "b"), ("a/", "b"), ("", "b"), ("a", "/b")] {
        let expected = std::path::Path::new(b).join(n);
        assert_eq!(join(b, n), expected.to_str().unwrap());
    }
}

#[test]
fn joined_name_keeps_its_file_name() {
    let dest = join("used_images", "cat.jpg");
    assert_eq!(file_name(&dest), Some("cat.jpg"));
}
