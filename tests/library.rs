use curio::files::{check_exists, get_filename, name_or, read_result};
use curio::session::{
    decimal_string, label_for, window_failure, Session, INITIAL_HEIGHT, INITIAL_WIDTH,
    MIN_HEIGHT, MIN_WIDTH,
};
use curio::startup::{is_markdown_extension, is_markdown_path, select_startup_files, CliArg};
use curio::url::{content_url, url_from_encoded};

fn arg(a: &str, exists: bool, canonical: Option<&str>) -> CliArg {
    CliArg { arg: a.to_string(), exists, canonical: canonical.map(|c| c.to_string()) }
}

#[test]
fn filename_of_nested_path() {
    assert_eq!(get_filename("/a/b/report.md".to_string()), "report.md");
}

#[test]
fn filename_of_bare_name() {
    assert_eq!(get_filename("noext".to_string()), "noext");
}

#[test]
fn filename_without_final_component_is_untitled() {
    assert_eq!(get_filename("/".to_string()), "Untitled");
    assert_eq!(get_filename("".to_string()), "Untitled");
    assert_eq!(get_filename("notes/..".to_string()), "Untitled");
}

#[test]
fn filename_ignores_trailing_separator() {
    assert_eq!(get_filename("/usr/share/docs/".to_string()), "docs");
}

#[test]
fn filename_of_missing_file_still_given() {
    let path = "/does/not/exist/plan.md".to_string();
    let r = check_exists(&path, false);
    assert_eq!(r, Err("File not found: /does/not/exist/plan.md".to_string()));
    assert_eq!(get_filename(path), "plan.md");
}

#[test]
fn existing_file_passes_check() {
    assert_eq!(check_exists(&"/tmp/a.md".to_string(), true), Ok(()));
}

#[test]
fn read_text_is_returned_unchanged() {
    assert_eq!(read_result(Ok("# Title\n".to_string())), Ok("# Title\n".to_string()));
}

#[test]
fn read_failure_carries_cause() {
    assert_eq!(
        read_result(Err("permission denied".to_string())),
        Err("Failed to read file: permission denied".to_string())
    );
}

#[test]
fn name_or_takes_fallback() {
    assert_eq!(name_or(None, "Curio"), "Curio");
    assert_eq!(name_or(Some("a.md".to_string()), "Curio"), "a.md");
}

#[test]
fn startup_keeps_existing_markdown_only() {
    let args = vec![
        arg("foo.md", true, Some("/home/u/foo.md")),
        arg("bar.txt", true, Some("/home/u/bar.txt")),
        arg("missing.md", false, None),
    ];
    assert_eq!(select_startup_files(&args), vec!["/home/u/foo.md".to_string()]);
}

#[test]
fn startup_keeps_order_and_falls_back_to_argument() {
    let args = vec![
        arg("b.MARKDOWN", true, Some("/w/b.MARKDOWN")),
        arg("rel/a.mkd", true, None),
        arg("README", true, Some("/w/README")),
        arg("c.Mdown", true, Some("/w/c.Mdown")),
        arg("dir.md/", false, None),
    ];
    assert_eq!(
        select_startup_files(&args),
        vec!["/w/b.MARKDOWN".to_string(), "rel/a.mkd".to_string(), "/w/c.Mdown".to_string()]
    );
}

#[test]
fn startup_with_no_arguments() {
    assert_eq!(select_startup_files(&Vec::new()), Vec::<String>::new());
}

#[test]
fn markdown_extensions() {
    for e in ["md", "markdown", "mdown", "mkd", "mkdown"] {
        assert!(is_markdown_extension(&e.to_string()));
    }
    for e in ["MD", "txt", "", "m", "mdx"] {
        assert!(!is_markdown_extension(&e.to_string()));
    }
}

#[test]
fn markdown_paths_in_any_case() {
    assert!(is_markdown_path(&"/x/NOTES.Md".to_string()));
    assert!(is_markdown_path(&"a.mkdown".to_string()));
    assert!(!is_markdown_path(&"a.txt".to_string()));
    assert!(!is_markdown_path(&"md".to_string()));
    assert!(!is_markdown_path(&".md".to_string()));
}

#[test]
fn staged_paths_delivered_once() {
    let mut s = Session::new(vec!["/a.md".to_string(), "/b.md".to_string()]);
    assert_eq!(s.take_staged(), vec!["/a.md".to_string(), "/b.md".to_string()]);
    assert_eq!(s.take_staged(), Vec::<String>::new());
    let _ = s.plan_window(None);
    assert_eq!(s.take_staged(), Vec::<String>::new());
}

#[test]
fn windows_get_distinct_labels() {
    let mut s = Session::new(Vec::new());
    assert_eq!(s.next_window_id(), 1);
    let a = s.plan_window(None);
    let b = s.plan_window(Some("/x/y/notes.md".to_string()));
    assert_eq!(a.label, "curio-1");
    assert_eq!(b.label, "curio-2");
    assert_ne!(a.label, b.label);
    assert_eq!(s.next_window_id(), 3);
}

#[test]
fn plain_window_plan() {
    let mut s = Session::new(Vec::new());
    let p = s.plan_window(None);
    assert_eq!(p.title, "Curio");
    assert_eq!(p.url, "index.html");
    assert_eq!((p.width, p.height), (900, 700));
    assert_eq!((p.min_width, p.min_height), (400, 300));
    assert_eq!((INITIAL_WIDTH, INITIAL_HEIGHT, MIN_WIDTH, MIN_HEIGHT), (900, 700, 400, 300));
}

#[test]
fn file_window_plan() {
    let mut s = Session::new(Vec::new());
    let p = s.plan_window(Some("/x/y/notes.md".to_string()));
    assert_eq!(p.title, "notes.md");
    assert_eq!(p.url, "index.html?file=%2Fx%2Fy%2Fnotes.md");
}

#[test]
fn file_window_without_name_is_titled_curio() {
    let mut s = Session::new(Vec::new());
    let p = s.plan_window(Some("/".to_string()));
    assert_eq!(p.title, "Curio");
    assert_eq!(p.url, "index.html?file=%2F");
}

#[test]
fn content_url_encodes_reserved_and_non_ascii() {
    assert_eq!(
        content_url(&Some("/tmp/my notes/ü-a_b.~c.md".to_string())),
        "index.html?file=%2Ftmp%2Fmy%20notes%2F%C3%BC-a_b.~c.md"
    );
    assert_eq!(content_url(&None), "index.html");
}

#[test]
fn url_from_encoded_path() {
    assert_eq!(url_from_encoded(Some("a%20b")), "index.html?file=a%20b");
    assert_eq!(url_from_encoded(None), "index.html");
}

#[test]
fn decimal_numbers() {
    assert_eq!(decimal_string(0), "0");
    assert_eq!(decimal_string(7), "7");
    assert_eq!(decimal_string(10), "10");
    assert_eq!(decimal_string(1234567890), "1234567890");
    assert_eq!(decimal_string(u64::MAX), "18446744073709551615");
}

#[test]
fn labels_are_prefixed() {
    assert_eq!(label_for(42), "curio-42");
}

#[test]
fn window_failure_message() {
    assert_eq!(window_failure(&"no display".to_string()), "Failed to create window: no display");
}
