use file_reader::search::get_search_render;
use file_reader::search::SearchCollector;
use file_reader::search::SearchError;

#[test]
fn exact_match_line_is_printed_with_its_line_number() {
    let r = get_search_render(b"foo\n", "f".to_string(), "foo", "0", "0", false).unwrap();
    assert_eq!(r.content, "1:foo\n");
    assert_eq!(r.search, "foo");
    assert_eq!(r.file_path, "f");
}

#[test]
fn case_insensitive_search_matches_other_cases() {
    let text = b"hello Foo world\n";
    let hit = get_search_render(text, "f".to_string(), "foo", "0", "0", true).unwrap();
    assert!(hit.content.contains("Foo"));
    let miss = get_search_render(text, "f".to_string(), "foo", "0", "0", false).unwrap();
    assert_eq!(miss.content, "");
}

#[test]
fn context_lines_are_included() {
    let text = b"one\ntwo\nfoo\nfour\nfive\n";
    let r = get_search_render(text, "f".to_string(), "foo", "1", "1", false).unwrap();
    assert!(r.content.contains("two"));
    assert!(r.content.contains("foo"));
    assert!(r.content.contains("four"));
    assert!(!r.content.contains("one"));
    assert!(!r.content.contains("five"));
}

#[test]
fn bad_pattern_is_a_pattern_error() {
    let r = get_search_render(b"x\n", "f".to_string(), "(", "0", "0", false);
    assert!(matches!(r, Err(SearchError::Pattern)));
}

#[test]
fn non_numeric_context_count_is_a_pattern_error() {
    let r = get_search_render(b"x\n", "f".to_string(), "x", "abc", "0", false);
    assert!(matches!(r, Err(SearchError::Pattern)));
    let r = get_search_render(b"x\n", "f".to_string(), "x", "0", "-1", false);
    assert!(matches!(r, Err(SearchError::Pattern)));
    let ok = get_search_render(b"x\n", "f".to_string(), "x", "+1", "0", false);
    assert!(ok.is_ok());
}

#[test]
fn oversized_single_file_output_is_a_size_limit_error() {
    // Every line matches, so the printed output tops 10 MB.
    let text = "aaaaaaaaaaaaaaa\n".repeat(700_000);
    let r = get_search_render(text.as_bytes(), "f".to_string(), "a", "0", "0", false);
    assert!(matches!(r, Err(SearchError::SizeLimit)));
}

#[test]
fn directory_search_headers_one_block_per_matching_file() {
    let files: [(&str, &[u8]); 3] =
        [("/f1", b"alpha match one\n"), ("/f2", b"no hit here\n"), ("/f3", b"match three\n")];
    let mut collector = SearchCollector::new();
    for (rel, content) in files.iter() {
        let per_file =
            get_search_render(content, rel.to_string(), "match", "0", "0", false).unwrap();
        collector.add_file(rel, &per_file.content);
    }
    let r = collector.finish("/data".to_string(), "match".to_string()).unwrap();
    assert_eq!(r.content.matches("\r\n\r\n\r\n\r\n").count(), 2);
    assert!(r.content.contains("/f1\r\n\r\n1:alpha match one\n"));
    assert!(r.content.contains("/f3\r\n\r\n1:match three\n"));
    assert!(!r.content.contains("/f2"));
    assert_eq!(r.file_path, "/data");
    assert_eq!(r.search, "match");
}

#[test]
fn pattern_error_ends_a_directory_search_and_other_errors_skip_the_file() {
    let mut collector = SearchCollector::new();
    let bad_pattern = get_search_render(b"x\n", "/f1".to_string(), "(", "0", "0", false);
    let stop = collector.add_result("/f1", bad_pattern);
    assert!(matches!(stop, Err(SearchError::Pattern)));

    let mut collector = SearchCollector::new();
    assert!(collector.add_result("/f1", Err(SearchError::SizeLimit)).is_ok());
    assert!(collector.add_result("/f2", Err(SearchError::Search)).is_ok());
    let hit = get_search_render(b"match\n", "/f3".to_string(), "match", "0", "0", false).unwrap();
    assert!(collector.add_result("/f3", Ok(hit)).is_ok());
    let r = collector.finish("/d".to_string(), "match".to_string()).unwrap();
    assert_eq!(r.content, "\r\n\r\n\r\n\r\n/f3\r\n\r\n1:match\n");
}

#[test]
fn directory_budget_is_charged_per_matching_file() {
    // One matching file earns one 10 MB unit; text beyond it fails.
    let mut over = SearchCollector::new();
    over.add_file("/big", &"x".repeat(10_485_760));
    assert!(matches!(
        over.finish("/d".to_string(), "x".to_string()),
        Err(SearchError::SizeLimit)
    ));

    let mut under = SearchCollector::new();
    under.add_file("/small", "hit\n");
    under.add_file("/empty", "");
    let r = under.finish("/d".to_string(), "x".to_string()).unwrap();
    assert_eq!(r.content, "\r\n\r\n\r\n\r\n/small\r\n\r\nhit\n");
}
