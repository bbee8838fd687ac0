use url_cleaner::driver::RunMode;
use url_cleaner::driver::RunSummary;
use url_cleaner::driver::choose_mode;
use url_cleaner::driver::default_output_path;
use url_cleaner::driver::no_input_message;
use url_cleaner::driver::render_output_line;
use url_cleaner::driver::select_valid_urls;
use url_cleaner::driver::split_lines;
use url_cleaner::driver::valid_urls_of_text;

#[test]
fn split_keeps_every_line_in_order() {
    assert_eq!(split_lines("a\nb\nc"), vec!["a", "b", "c"]);
    assert_eq!(split_lines("a\nb\n"), vec!["a", "b", ""]);
    assert_eq!(split_lines(""), vec![""]);
    assert_eq!(split_lines("\n\n"), vec!["", "", ""]);
}

#[test]
fn selection_keeps_matching_lines_in_input_order() {
    let text = "https://www.example.com\nnot a url\n\nhttp://www.example.org\nhtp://broken.example\nhttps://example.net\n";
    let urls = valid_urls_of_text(text);
    assert_eq!(
        urls,
        vec![
            "https://www.example.com",
            "http://www.example.org",
            "https://example.net"
        ]
    );
}

#[test]
fn selection_of_no_matches_is_empty() {
    let lines = vec![String::from("one"), String::from("two")];
    let urls = select_valid_urls(&lines);
    assert!(urls.is_empty());
}

#[test]
fn counters_equal_ok_and_failed_outcomes() {
    let outcomes: Vec<Result<String, String>> = vec![
        Ok(String::from("https://a.com (Ok)")),
        Err(String::from("Error checking URL: https://b.com (status code: 404)")),
        Ok(String::from("https://c.com (Redirect)")),
        Err(String::from("connection refused")),
        Err(String::from("timed out")),
    ];
    let mut summary = RunSummary::new();
    let mut written: Vec<String> = Vec::new();
    for outcome in outcomes {
        if let Some(line) = summary.record(outcome) {
            written.push(line);
        }
    }
    assert_eq!(summary.succeeded, 2);
    assert_eq!(summary.failed, 3);
    assert_eq!(
        written,
        vec!["https://a.com (Ok)", "https://c.com (Redirect)"]
    );
}

#[test]
fn failed_outcomes_write_nothing() {
    let mut summary = RunSummary::new();
    let line = summary.record(Err(String::from("boom")));
    assert!(line.is_none());
    assert_eq!(summary.succeeded, 0);
    assert_eq!(summary.failed, 1);
}

#[test]
fn output_lines_carry_a_trailing_space() {
    assert_eq!(
        render_output_line("https://example.com (Ok)"),
        "https://example.com (Ok) \n"
    );
}

#[test]
fn mode_choice_prefers_target_then_file() {
    let m = choose_mode(Some(String::from("https://example.com")), None);
    assert!(matches!(m, RunMode::Target(t) if t == "https://example.com"));
    let m = choose_mode(None, Some(String::from("urls.txt")));
    assert!(matches!(m, RunMode::InputFile(f) if f == "urls.txt"));
    let m = choose_mode(None, None);
    assert!(matches!(m, RunMode::Nothing));
}

#[test]
fn fixed_messages_are_exact() {
    assert_eq!(no_input_message(), "No target or file provided");
    assert_eq!(default_output_path(), "correct_urls_output.txt");
}
