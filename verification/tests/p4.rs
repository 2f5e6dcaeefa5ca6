use p4mux::p4::{
    classify_opened, classify_status, get_client_from_conf, get_open_counts, get_status_counts,
    is_logged_in, login_arguments, opened_arguments, output_lines, parse_action, status_arguments,
    Action, Counter, Exit, OpenCounts, QueryError, StatusCounts, StatusEntry,
};

fn record(action: Option<&str>, change: Option<&str>) -> Option<StatusEntry> {
    Some(StatusEntry { action: action.map(String::from), change: change.map(String::from) })
}

fn entry(action: Option<&str>, change: Option<&str>) -> StatusEntry {
    StatusEntry { action: action.map(String::from), change: change.map(String::from) }
}

fn lines(text: &str) -> Vec<String> {
    output_lines(text.as_bytes()).into_iter().map(|l| String::from_utf8(l).unwrap()).collect()
}

#[test]
fn output_without_bytes_has_no_lines() {
    assert_eq!(lines(""), Vec::<String>::new());
}

#[test]
fn output_lines_split_at_line_feeds() {
    assert_eq!(lines("a\nb\nc"), vec!["a", "b", "c"]);
}

#[test]
fn final_line_feed_adds_no_line() {
    assert_eq!(lines("a\nb\n"), vec!["a", "b"]);
    assert_eq!(lines("a\n"), vec!["a"]);
}

#[test]
fn empty_lines_are_kept() {
    assert_eq!(lines("a\n\nb"), vec!["a", "", "b"]);
    assert_eq!(lines("\n"), vec![""]);
    assert_eq!(lines("\n\n"), vec!["", ""]);
}

#[test]
fn carriage_return_before_line_feed_is_dropped() {
    assert_eq!(lines("a\r\nb\r\n"), vec!["a", "b"]);
    assert_eq!(lines("\r\n"), vec![""]);
}

#[test]
fn other_carriage_returns_stay() {
    assert_eq!(lines("a\rb\n"), vec!["a\rb"]);
    assert_eq!(lines("a\r"), vec!["a\r"]);
    assert_eq!(lines("a\r\r\n"), vec!["a\r"]);
}

#[test]
fn output_lines_agree_with_the_standard_splitting() {
    for text in ["", "x", "x\n", "x\ny", "x\r\ny\r\n", "\n\nx\r", "{\"a\":1}\n{\"b\":2}\n", "\r\n\r\n", "a\n\r\nb"] {
        let expected: Vec<String> = text.lines().map(String::from).collect();
        assert_eq!(lines(text), expected, "for {:?}", text);
    }
}

#[test]
fn action_strings_are_read_exactly() {
    assert_eq!(parse_action("add"), Some(Action::Add));
    assert_eq!(parse_action("edit"), Some(Action::Edit));
    assert_eq!(parse_action("delete"), Some(Action::Delete));
    assert_eq!(parse_action("move/add"), Some(Action::MoveAdd));
    assert_eq!(parse_action("move/delete"), Some(Action::MoveDelete));
    assert_eq!(parse_action("branch"), None);
    assert_eq!(parse_action("Add"), None);
    assert_eq!(parse_action(""), None);
    assert_eq!(parse_action("add "), None);
}

#[test]
fn edit_with_a_change_is_an_open_edit() {
    assert_eq!(classify_status(&entry(Some("edit"), Some("123"))), Some(Counter::Edit));
    let counts = get_status_counts(Exit::Succeeded, &vec![record(Some("edit"), Some("123"))]).unwrap();
    assert_eq!(counts.edit, 1);
    assert_eq!(counts.edit_reconcile, 0);
}

#[test]
fn edit_without_a_change_is_an_edit_to_reconcile() {
    assert_eq!(classify_status(&entry(Some("edit"), None)), Some(Counter::ReconcileEdit));
    let counts = get_status_counts(Exit::Succeeded, &vec![record(Some("edit"), None)]).unwrap();
    assert_eq!(counts.edit, 0);
    assert_eq!(counts.edit_reconcile, 1);
}

#[test]
fn add_is_open_or_to_reconcile_by_its_change() {
    assert_eq!(classify_status(&entry(Some("add"), Some("default"))), Some(Counter::Add));
    assert_eq!(classify_status(&entry(Some("add"), None)), Some(Counter::ReconcileAdd));
}

#[test]
fn deletes_and_moves_are_always_open() {
    assert_eq!(classify_status(&entry(Some("delete"), None)), Some(Counter::Delete));
    assert_eq!(classify_status(&entry(Some("delete"), Some("7"))), Some(Counter::Delete));
    assert_eq!(classify_status(&entry(Some("move/add"), None)), Some(Counter::MoveAdd));
    assert_eq!(classify_status(&entry(Some("move/delete"), None)), Some(Counter::MoveDelete));
}

#[test]
fn unknown_and_missing_actions_feed_no_counter() {
    assert_eq!(classify_status(&entry(Some("integrate"), Some("1"))), None);
    assert_eq!(classify_status(&entry(None, Some("1"))), None);
    assert_eq!(classify_status(&entry(None, None)), None);
    assert_eq!(classify_opened(&entry(Some("integrate"), Some("1"))), None);
    assert_eq!(classify_opened(&entry(None, None)), None);
}

#[test]
fn opened_files_are_counted_by_action_alone() {
    assert_eq!(classify_opened(&entry(Some("add"), None)), Some(Counter::Add));
    assert_eq!(classify_opened(&entry(Some("edit"), None)), Some(Counter::Edit));
    assert_eq!(classify_opened(&entry(Some("edit"), Some("9"))), Some(Counter::Edit));
    assert_eq!(classify_opened(&entry(Some("delete"), Some("9"))), Some(Counter::Delete));
    assert_eq!(classify_opened(&entry(Some("move/add"), Some("9"))), Some(Counter::MoveAdd));
    assert_eq!(classify_opened(&entry(Some("move/delete"), Some("9"))), Some(Counter::MoveDelete));
}

fn sample() -> Vec<Option<StatusEntry>> {
    vec![
        record(Some("add"), Some("default")),
        record(Some("add"), None),
        record(Some("add"), None),
        record(Some("edit"), Some("42")),
        record(Some("edit"), None),
        record(Some("delete"), Some("42")),
        record(Some("delete"), None),
        record(Some("move/add"), Some("42")),
        record(Some("move/delete"), Some("42")),
        record(Some("branch"), Some("42")),
        record(None, Some("42")),
        record(None, None),
        record(Some("edit"), Some("default")),
    ]
}

#[test]
fn status_counts_of_a_mixed_output() {
    let counts = get_status_counts(Exit::Succeeded, &sample()).unwrap();
    assert_eq!(
        counts,
        StatusCounts {
            add: 1,
            delete: 2,
            edit: 2,
            move_add: 1,
            move_del: 1,
            add_reconcile: 2,
            edit_reconcile: 1,
        }
    );
}

#[test]
fn status_counters_add_up_to_the_recognized_records() {
    let counts = get_status_counts(Exit::Succeeded, &sample()).unwrap();
    let total = counts.add
        + counts.edit
        + counts.delete
        + counts.move_add
        + counts.move_del
        + counts.add_reconcile
        + counts.edit_reconcile;
    assert_eq!(total, 10);
}

#[test]
fn open_counts_of_a_mixed_output() {
    let counts = get_open_counts(Exit::Succeeded, &sample()).unwrap();
    assert_eq!(counts, OpenCounts { add: 3, delete: 2, edit: 3, move_add: 1, move_del: 1 });
}

#[test]
fn no_lines_give_zero_counts() {
    let counts = get_status_counts(Exit::Succeeded, &Vec::new()).unwrap();
    assert_eq!(counts, StatusCounts::default());
    assert_eq!(counts.add + counts.edit + counts.delete, 0);
    assert_eq!(get_open_counts(Exit::Succeeded, &Vec::new()).unwrap(), OpenCounts::default());
}

#[test]
fn a_run_that_did_not_start_fails_the_query() {
    assert_eq!(get_status_counts(Exit::NotStarted, &sample()), Err(QueryError::NotStarted));
    assert_eq!(get_open_counts(Exit::NotStarted, &Vec::new()), Err(QueryError::NotStarted));
}

#[test]
fn a_failing_exit_fails_the_query() {
    assert_eq!(get_status_counts(Exit::Failed, &sample()), Err(QueryError::ExitFailure));
    assert_eq!(get_open_counts(Exit::Failed, &sample()), Err(QueryError::ExitFailure));
}

#[test]
fn the_first_line_that_is_no_record_fails_the_query() {
    let mut lines = sample();
    lines.insert(4, None);
    lines.push(None);
    assert_eq!(get_status_counts(Exit::Succeeded, &lines), Err(QueryError::MalformedLine(4)));
    assert_eq!(get_open_counts(Exit::Succeeded, &lines), Err(QueryError::MalformedLine(4)));
    assert_eq!(get_status_counts(Exit::Succeeded, &vec![None]), Err(QueryError::MalformedLine(0)));
}

#[test]
fn the_exit_is_judged_before_the_lines() {
    assert_eq!(get_status_counts(Exit::Failed, &vec![None]), Err(QueryError::ExitFailure));
}

#[test]
fn open_part_of_status_counts() {
    let counts = StatusCounts {
        add: 1,
        delete: 2,
        edit: 3,
        move_add: 4,
        move_del: 5,
        add_reconcile: 6,
        edit_reconcile: 7,
    };
    assert_eq!(
        counts.open_counts(),
        OpenCounts { add: 1, delete: 2, edit: 3, move_add: 4, move_del: 5 }
    );
}

#[test]
fn only_a_successful_login_check_is_a_session() {
    assert!(is_logged_in(Exit::Succeeded));
    assert!(!is_logged_in(Exit::Failed));
    assert!(!is_logged_in(Exit::NotStarted));
}

#[test]
fn query_arguments_without_a_path() {
    assert_eq!(opened_arguments(None), vec!["-Mj", "-ztag", "opened"]);
    assert_eq!(status_arguments(&"-m".to_string(), None), vec!["-Mj", "-ztag", "status", "-m"]);
    assert_eq!(login_arguments(None), vec!["login", "-s"]);
}

#[test]
fn query_arguments_with_a_path() {
    let path = "/work/depot".to_string();
    assert_eq!(opened_arguments(Some(&path)), vec!["-d", "/work/depot", "-Mj", "-ztag", "opened"]);
    assert_eq!(
        status_arguments(&"-m -f".to_string(), Some(&path)),
        vec!["-d", "/work/depot", "-Mj", "-ztag", "status", "-m -f"]
    );
    assert_eq!(login_arguments(Some(&path)), vec!["-d", "/work/depot", "login", "-s"]);
}

#[test]
fn client_is_read_from_its_line() {
    assert_eq!(get_client_from_conf("P4CLIENT=ws1"), Some("ws1".to_string()));
    assert_eq!(get_client_from_conf("P4CLIENT=ws1\n"), Some("ws1".to_string()));
    assert_eq!(
        get_client_from_conf("P4PORT=ssl:perforce:1666\nP4CLIENT=my-ws\nP4USER=me\n"),
        Some("my-ws".to_string())
    );
}

#[test]
fn client_line_may_end_with_carriage_return_and_line_feed() {
    assert_eq!(get_client_from_conf("P4USER=me\r\nP4CLIENT=ws1\r\n"), Some("ws1".to_string()));
}

#[test]
fn first_client_line_decides() {
    assert_eq!(get_client_from_conf("P4CLIENT=one\nP4CLIENT=two\n"), Some("one".to_string()));
}

#[test]
fn client_ends_at_the_next_equals_sign() {
    assert_eq!(get_client_from_conf("P4CLIENT=a=b\n"), Some("a".to_string()));
    assert_eq!(get_client_from_conf("P4CLIENT==b\n"), Some("".to_string()));
}

#[test]
fn client_may_be_empty() {
    assert_eq!(get_client_from_conf("P4CLIENT=\n"), Some("".to_string()));
    assert_eq!(get_client_from_conf("P4CLIENT="), Some("".to_string()));
}

#[test]
fn client_may_hold_any_characters() {
    assert_eq!(get_client_from_conf("P4CLIENT=w\u{e9}b \u{ea60}\n"), Some("w\u{e9}b \u{ea60}".to_string()));
    assert_eq!(get_client_from_conf("# \u{f1616}\nP4CLIENT=x\u{f1616}y"), Some("x\u{f1616}y".to_string()));
}

#[test]
fn files_without_a_client_line_name_none() {
    assert_eq!(get_client_from_conf(""), None);
    assert_eq!(get_client_from_conf("P4PORT=1666\nP4USER=me\n"), None);
    assert_eq!(get_client_from_conf("P4CLIENT"), None);
    assert_eq!(get_client_from_conf("P4CLIENT\n"), None);
    assert_eq!(get_client_from_conf(" P4CLIENT=ws1\n"), None);
    assert_eq!(get_client_from_conf("P4CLIENTS=ws1\n"), None);
    assert_eq!(get_client_from_conf("p4client=ws1\n"), None);
    assert_eq!(get_client_from_conf("XP4CLIENT=ws1\n"), None);
}

#[test]
fn a_line_without_equals_sign_is_passed_over() {
    assert_eq!(get_client_from_conf("P4CLIENT\nP4CLIENT=ws2\n"), Some("ws2".to_string()));
}

/// Decodes a line as far as a record needs it: the text of its `action` and
/// `change` members, where the line is a JSON value.
fn decode(line: &[u8]) -> Option<StatusEntry> {
    let value: serde_json::Value = serde_json::from_slice(line).ok()?;
    let member = |name: &str| value.get(name).and_then(|text| text.as_str()).map(String::from);
    Some(StatusEntry { action: member("action"), change: member("change") })
}

const STATUS_OUTPUT: &str = "\
{\"action\":\"edit\",\"change\":\"default\",\"clientFile\":\"/work/a.txt\",\"depotFile\":\"//depot/a.txt\",\"haveRev\":\"3\",\"type\":\"text\"}\n\
{\"action\":\"add\",\"clientFile\":\"/work/new.txt\",\"depotFile\":\"//depot/new.txt\",\"type\":\"text\",\"workRev\":\"1\"}\r\n\
{\"action\":\"edit\",\"change\":null,\"clientFile\":\"/work/b.txt\",\"depotFile\":\"//depot/b.txt\"}\n\
{\"action\":\"move/delete\",\"change\":\"812\",\"clientFile\":\"/work/old.txt\"}\n\
{\"action\":\"branch\",\"change\":\"812\",\"clientFile\":\"/work/c.txt\"}\n\
{\"clientFile\":\"/work/d.txt\"}\n";

#[test]
fn tool_output_is_framed_decoded_and_counted() {
    let lines: Vec<Option<StatusEntry>> =
        output_lines(STATUS_OUTPUT.as_bytes()).iter().map(|line| decode(line)).collect();
    assert_eq!(lines.len(), 6);
    let counts = get_status_counts(Exit::Succeeded, &lines).unwrap();
    assert_eq!(
        counts,
        StatusCounts {
            add: 0,
            delete: 0,
            edit: 1,
            move_add: 0,
            move_del: 1,
            add_reconcile: 1,
            edit_reconcile: 1,
        }
    );
    let opened = get_open_counts(Exit::Succeeded, &lines).unwrap();
    assert_eq!(opened, OpenCounts { add: 1, delete: 0, edit: 2, move_add: 0, move_del: 1 });
}

#[test]
fn tool_output_with_a_broken_line_fails_the_query() {
    let output = "{\"action\":\"edit\",\"change\":\"1\"}\n{\"action\":\n{\"action\":\"add\"}\n";
    let lines: Vec<Option<StatusEntry>> =
        output_lines(output.as_bytes()).iter().map(|line| decode(line)).collect();
    assert_eq!(get_status_counts(Exit::Succeeded, &lines), Err(QueryError::MalformedLine(1)));
}
