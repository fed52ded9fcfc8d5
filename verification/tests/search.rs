use rgrep::errors::SearchError;
use rgrep::matcher::Matcher;
use rgrep::search::begin_task;
use rgrep::search::first_error_index;
use rgrep::search::scan_line;
use rgrep::search::scan_lines;
use rgrep::search::Entry;
use rgrep::search::SearchConfig;
use rgrep::search::SearchMode;
use rgrep::search::TaskStep;

fn entry(path: &str, name: &str, is_dir: bool) -> Entry {
    Entry { path: String::from(path), name: String::from(name), is_dir }
}

fn lines(ls: &[&str]) -> Vec<String> {
    ls.iter().map(|l| String::from(*l)).collect()
}

#[test]
fn config_rejects_a_zero_concurrency_limit() {
    assert!(SearchConfig::new(SearchMode::ContentSearch, 1, 0, false, false, false).is_none());
}

#[test]
fn config_keeps_every_field() {
    let c = SearchConfig::new(SearchMode::NameSearch, 3, 2, true, true, false).unwrap();
    assert!(matches!(c.mode, SearchMode::NameSearch));
    assert_eq!(c.max_depth, 3);
    assert_eq!(c.concurrency_limit, 2);
    assert!(c.invert_match);
    assert!(c.show_line_number);
    assert!(!c.verbose);
}

#[test]
fn content_search_reports_matching_lines_per_file() {
    // Two files, pattern "ba": "bar" in the first, "baz" in the second.
    let m = Matcher::new(String::from("ba")).unwrap();
    let a = scan_lines(&m, &lines(&["foo", "bar"]), false, false);
    assert_eq!(a.len(), 1);
    assert_eq!(a[0].number, 2);
    assert_eq!(a[0].text, "bar");
    let b = scan_lines(&m, &lines(&["baz"]), false, false);
    assert_eq!(b.len(), 1);
    assert_eq!(b[0].number, 1);
    assert_eq!(b[0].text, "baz");
}

#[test]
fn inverted_content_search_reports_only_the_nonmatching_lines() {
    let m = Matcher::new(String::from("ba")).unwrap();
    let a = scan_lines(&m, &lines(&["foo", "bar"]), true, false);
    assert_eq!(a.len(), 1);
    assert_eq!(a[0].number, 1);
    assert_eq!(a[0].text, "foo");
    let b = scan_lines(&m, &lines(&["baz"]), true, false);
    assert_eq!(b.len(), 0);
}

#[test]
fn name_search_reports_only_the_matching_entry() {
    let m = Matcher::new(String::from("^a")).unwrap();
    let root = entry("root", "root", true);
    let a = entry("root/a.txt", "a.txt", false);
    let b = entry("root/b.txt", "b.txt", false);
    assert_eq!(begin_task(&m, SearchMode::NameSearch, &root, false), TaskStep::Skip);
    assert_eq!(begin_task(&m, SearchMode::NameSearch, &a, false), TaskStep::Report);
    assert_eq!(begin_task(&m, SearchMode::NameSearch, &b, false), TaskStep::Skip);
}

#[test]
fn name_search_covers_directories_too() {
    let m = Matcher::new(String::from("^a")).unwrap();
    let d = entry("root/alpha", "alpha", true);
    assert_eq!(begin_task(&m, SearchMode::NameSearch, &d, false), TaskStep::Report);
}

#[test]
fn name_search_never_reads_content() {
    let m = Matcher::new(String::from(".*")).unwrap();
    let f = entry("root/a.txt", "a.txt", false);
    let d = entry("root", "root", true);
    assert_ne!(begin_task(&m, SearchMode::NameSearch, &f, false), TaskStep::ReadFile);
    assert_ne!(begin_task(&m, SearchMode::NameSearch, &d, false), TaskStep::ReadFile);
    assert_ne!(begin_task(&m, SearchMode::NameSearch, &f, true), TaskStep::ReadFile);
}

#[test]
fn content_search_skips_directories_and_reads_files() {
    let m = Matcher::new(String::from("ba")).unwrap();
    let d = entry("root/sub", "sub", true);
    let f = entry("root/a.txt", "a.txt", false);
    assert_eq!(begin_task(&m, SearchMode::ContentSearch, &d, false), TaskStep::Skip);
    assert_eq!(begin_task(&m, SearchMode::ContentSearch, &f, false), TaskStep::ReadFile);
}

#[test]
fn line_numbers_are_one_based_and_ascending() {
    let m = Matcher::new(String::from("ba")).unwrap();
    let r = scan_lines(&m, &lines(&["x", "bar", "y", "bab", "ba"]), false, false);
    let numbers: Vec<usize> = r.iter().map(|rec| rec.number).collect();
    assert_eq!(numbers, vec![2, 4, 5]);
}

#[test]
fn scan_line_fills_spans_only_when_asked() {
    let m = Matcher::new(String::from("ba")).unwrap();
    let with = scan_line(&m, 1, "banana bar", false, true).unwrap();
    assert_eq!(with.spans, vec![(0, 2), (7, 9)]);
    let without = scan_line(&m, 1, "banana bar", false, false).unwrap();
    assert!(without.spans.is_empty());
    assert_eq!(without.text, "banana bar");
    assert!(scan_line(&m, 1, "foo", false, true).is_none());
}

#[test]
fn first_error_index_finds_the_earliest_failure() {
    let ok: Result<(), SearchError> = Ok(());
    let open_err: Result<(), SearchError> = Err(SearchError::FileOpen {
        path: String::from("root/a.txt"),
        detail: String::from("permission denied"),
    });
    let read_err: Result<(), SearchError> = Err(SearchError::LineRead {
        path: String::from("root/b.txt"),
        line: 3,
        detail: String::from("invalid data"),
    });
    let walk_err: Result<(), SearchError> = Err(SearchError::Traversal {
        path: String::from("root/locked"),
        detail: String::from("permission denied"),
    });
    assert_eq!(first_error_index(&vec![]), None);
    assert_eq!(first_error_index(&vec![ok.clone(), ok.clone()]), None);
    assert_eq!(first_error_index(&vec![ok.clone(), open_err, read_err]), Some(1));
    assert_eq!(first_error_index(&vec![walk_err, ok]), Some(0));
}
