use file_reader::listing::get_directory_info_render;
use file_reader::listing::RawEntry;

fn entry(name: &str, is_dir: bool, size: u64) -> RawEntry {
    RawEntry { name: name.to_string(), is_dir, size, modified_secs: 1_600_000_000 }
}

#[test]
fn listing_counts_only_visible_entries() {
    let entries = vec![
        entry("a.txt", false, 3),
        entry(".git", true, 0),
        entry("sub", true, 4096),
        entry(".hidden", false, 9),
    ];
    let r = get_directory_info_render(true, entries, "/".to_string());
    assert!(r.status);
    assert_eq!(r.info, "");
    assert_eq!(r.list.len(), 2);
    assert_eq!(r.list[0].name, "a.txt");
    assert_eq!(r.list[0].class, "f");
    assert_eq!(r.list[0].size, 3);
    assert_eq!(r.list[1].name, "sub");
    assert_eq!(r.list[1].class, "d");
    assert_eq!(r.list[1].size, 0);
    assert!(r.list.iter().all(|e| !e.name.starts_with('.')));
    assert_eq!(r.file_path.as_deref(), Some("/"));
}

#[test]
fn listing_of_only_hidden_entries_is_empty() {
    let entries = vec![entry(".a", false, 1), entry(".b", true, 0)];
    let r = get_directory_info_render(true, entries, "x".to_string());
    assert!(r.status);
    assert_eq!(r.list.len(), 0);
}

#[test]
fn modified_time_is_formatted_as_date_and_time() {
    let entries = vec![entry("a.txt", false, 3)];
    let r = get_directory_info_render(true, entries, "/".to_string());
    let date = &r.list[0].date;
    // "YYYY-MM-DD HH:MM:SS" in the machine's local zone.
    assert_eq!(date.len(), 19);
    assert_eq!(&date[4..5], "-");
    assert_eq!(&date[7..8], "-");
    assert_eq!(&date[10..11], " ");
    assert_eq!(&date[13..14], ":");
    assert_eq!(&date[16..17], ":");
}

#[test]
fn non_directory_fails_with_fixed_message() {
    let r = get_directory_info_render(false, Vec::new(), "ignored".to_string());
    assert!(!r.status);
    assert_eq!(r.info, "invalid directory configuration");
    assert_eq!(r.list.len(), 0);
    assert!(r.file_path.is_none());
}
