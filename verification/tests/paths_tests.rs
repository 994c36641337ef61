use imagix::paths::dest_dir;
use imagix::paths::dest_path;
use imagix::paths::extension_str;
use imagix::paths::has_supported_ext;
use imagix::paths::has_target_ext;
use imagix::paths::join_path;

#[test]
fn destination_is_tmp_sibling_with_png_name() {
    assert_eq!(dest_path("tmp/images/image1.jpg"), "tmp/images/tmp/image1.png");
    assert_eq!(dest_dir("tmp/images/image1.jpg"), "tmp/images/tmp");
    assert_eq!(dest_path("image1.jpg"), "tmp/image1.png");
    assert_eq!(dest_path("/a/b.png"), "/a/tmp/b.png");
    assert_eq!(dest_path("a/b/photo.tar.gz"), "a/b/tmp/photo.tar.png");
}

#[test]
fn extension_follows_last_dot_of_file_name() {
    assert_eq!(extension_str("a/b.jpg"), Some("jpg"));
    assert_eq!(extension_str("a/b.tar.gz"), Some("gz"));
    assert_eq!(extension_str("a/.hidden"), None);
    assert_eq!(extension_str("noext"), None);
    assert_eq!(extension_str("dotted.dir/noext"), None);
    assert_eq!(extension_str("trailing."), Some(""));
}

#[test]
fn engine_gate_is_lowercase_only() {
    assert!(has_target_ext("x/a.jpg"));
    assert!(has_target_ext("a.png"));
    assert!(!has_target_ext("x/a.JPG"));
    assert!(!has_target_ext("x/a.PNG"));
    assert!(!has_target_ext("x/a.pdf"));
    assert!(!has_target_ext("x/a"));
    assert!(!has_target_ext("x/.jpg"));
}

#[test]
fn enumerator_filter_takes_four_literals_only() {
    assert!(has_supported_ext("d/a.JPG"));
    assert!(has_supported_ext("d/a.jpg"));
    assert!(has_supported_ext("d/a.PNG"));
    assert!(has_supported_ext("d/a.png"));
    assert!(!has_supported_ext("d/a.Jpg"));
    assert!(!has_supported_ext("d/a.jPg"));
    assert!(!has_supported_ext("d/a.Png"));
    assert!(!has_supported_ext("d/a.gif"));
    assert!(!has_supported_ext("d/a"));
}

#[test]
fn join_inserts_one_separator() {
    assert_eq!(join_path("tmp/images", "a.jpg"), "tmp/images/a.jpg");
    assert_eq!(join_path("tmp/images/", "a.jpg"), "tmp/images/a.jpg");
    assert_eq!(join_path("", "a.jpg"), "a.jpg");
}
