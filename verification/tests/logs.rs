use script_runner::logs::{append_log, empty_buffer, split_logs};

fn logged(entries: &[&str]) -> String {
    let mut buffer = empty_buffer();
    for entry in entries {
        buffer = append_log(&buffer, entry);
    }
    buffer
}

#[test]
fn empty_buffer_is_empty() {
    assert_eq!(empty_buffer(), "");
}

#[test]
fn append_puts_a_newline_before_the_entry() {
    assert_eq!(append_log("", "a"), "\na");
    assert_eq!(append_log("\na", "b"), "\na\nb");
    assert_eq!(append_log("x", ""), "x\n");
}

#[test]
fn append_keeps_the_old_text() {
    let grown = append_log("first", "second");
    assert!(grown.starts_with("first"));
    assert_eq!(grown, "first\nsecond");
}

#[test]
fn split_of_empty_buffer_is_empty() {
    assert_eq!(split_logs(""), Vec::<String>::new());
}

#[test]
fn split_of_only_newlines_is_empty() {
    assert_eq!(split_logs("\n"), Vec::<String>::new());
    assert_eq!(split_logs("\n\n\n"), Vec::<String>::new());
}

#[test]
fn split_without_newline_is_one_line() {
    assert_eq!(split_logs("abc"), vec!["abc".to_string()]);
}

#[test]
fn split_drops_empty_pieces_and_keeps_order() {
    assert_eq!(
        split_logs("\na\n\nb\nc\n"),
        vec!["a".to_string(), "b".to_string(), "c".to_string()]
    );
}

#[test]
fn split_keeps_text_after_last_newline() {
    assert_eq!(split_logs("a\nlast"), vec!["a".to_string(), "last".to_string()]);
}

#[test]
fn split_handles_text_beyond_ascii() {
    assert_eq!(
        split_logs("\nžluť\n日本語\n🙂"),
        vec!["žluť".to_string(), "日本語".to_string(), "🙂".to_string()]
    );
}

#[test]
fn split_cuts_at_newlines_only() {
    assert_eq!(split_logs("a\rb\n c \n\t"), vec!["a\rb".to_string(), " c ".to_string(), "\t".to_string()]);
}

#[test]
fn no_log_calls_give_no_lines() {
    assert_eq!(split_logs(&logged(&[])), Vec::<String>::new());
}

#[test]
fn n_log_calls_give_n_lines_in_call_order() {
    let entries = ["one", "two", "three", "4", "[object Object]"];
    let lines = split_logs(&logged(&entries));
    assert_eq!(lines.len(), 5);
    assert_eq!(lines, entries.iter().map(|e| e.to_string()).collect::<Vec<_>>());
}

#[test]
fn empty_entries_are_filtered() {
    assert_eq!(split_logs(&logged(&["", "x"])), vec!["x".to_string()]);
    assert_eq!(split_logs(&logged(&["x", "", "", "y", ""])), vec!["x".to_string(), "y".to_string()]);
}

#[test]
fn an_entry_with_a_newline_gives_its_lines() {
    assert_eq!(
        split_logs(&logged(&["a\nb", "c"])),
        vec!["a".to_string(), "b".to_string(), "c".to_string()]
    );
}

#[test]
fn appending_splits_as_a_cut() {
    let buffer = "\nx\n\ny";
    let entry = "p\n\nq";
    let mut expected = split_logs(buffer);
    expected.extend(split_logs(entry));
    assert_eq!(split_logs(&append_log(buffer, entry)), expected);
}

#[test]
fn lines_are_never_empty_and_hold_no_newline() {
    for line in split_logs("\n\na\n\n\nbc\n\n") {
        assert!(!line.is_empty());
        assert!(!line.contains('\n'));
    }
}

#[test]
fn same_buffer_splits_the_same_twice() {
    let buffer = logged(&["a", "b"]);
    assert_eq!(split_logs(&buffer), split_logs(&buffer));
}

#[test]
fn two_buffers_do_not_mix() {
    let mut first = empty_buffer();
    let mut second = empty_buffer();
    first = append_log(&first, "a1");
    second = append_log(&second, "b1");
    first = append_log(&first, "a2");
    second = append_log(&second, "b2");
    assert_eq!(split_logs(&first), vec!["a1".to_string(), "a2".to_string()]);
    assert_eq!(split_logs(&second), vec!["b1".to_string(), "b2".to_string()]);
}
