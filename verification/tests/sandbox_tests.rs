use file_reader::sandbox::directory_filter;
use file_reader::sandbox::path_to_relative;
use file_reader::sandbox::remove_all;
use file_reader::sandbox::resolve;

#[test]
fn relative_path_keeps_plain_names() {
    assert_eq!(path_to_relative("docs/readme.txt"), "docs/readme.txt");
}

#[test]
fn absolute_path_is_reanchored() {
    assert_eq!(path_to_relative("/etc/passwd"), "./etc/passwd");
}

#[test]
fn parent_tokens_are_stripped() {
    assert_eq!(path_to_relative("../etc/passwd"), "/etc/passwd");
    assert_eq!(path_to_relative("a/../../b"), "a///b");
}

#[test]
fn runs_of_dots_cannot_rebuild_a_parent_token() {
    // The removal is textual, two characters at a time from the left;
    // these collapse instead of reassembling a `..`.
    assert_eq!(path_to_relative("..../.."), "/");
    assert_eq!(path_to_relative("...."), "");
    assert_eq!(path_to_relative("..."), ".");
    let uglies = ["..../..", ".../...", "..x..x..", "....//....", ". .. ..."];
    for ugly in uglies.iter() {
        assert!(!path_to_relative(ugly).contains(".."));
    }
}

#[test]
fn resolve_joins_under_root() {
    assert_eq!(resolve("/data", "log.txt"), "/data/log.txt");
}

#[test]
fn resolve_keeps_adversarial_paths_inside_root() {
    let users = ["../../etc/passwd", "/etc/passwd", "..../../etc", "a/../../.."];
    for user in users.iter() {
        let r = resolve("/data", user);
        assert!(r.starts_with("/data/"));
        assert!(!r["/data".len()..].contains(".."));
    }
}

#[test]
fn stripped_leading_parent_tokens_cannot_replace_the_root() {
    // Stripping "../etc" leaves "/etc". The join here is textual, so the
    // result stays under the root; a filesystem-style join that treats a
    // leading separator as absolute would let it replace the root
    // entirely. This deliberate choice is the safer of the two.
    let r = resolve("/data", "../etc/passwd");
    assert_eq!(r, "/data//etc/passwd");
    assert!(r.starts_with("/data/"));
}

#[test]
fn directory_filter_strips_the_root() {
    assert_eq!(directory_filter("/data/sub/file", "/data"), "/sub/file");
    assert_eq!(directory_filter("/data", ""), "/data");
}

#[test]
fn remove_all_scans_left_to_right_without_overlap() {
    assert_eq!(remove_all("banana", "an"), "ba");
    assert_eq!(remove_all("aaa", "aa"), "a");
    assert_eq!(remove_all("hello", "xyz"), "hello");
}
