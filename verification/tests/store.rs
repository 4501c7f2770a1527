use todo_rs::list::List;
use todo_rs::status::Status;
use todo_rs::store::{
    load_state, parse_header, parse_item, parse_state, save_state, split_lines, LoadError,
};

fn filled(items: &[&str], downs: usize) -> List {
    let mut list = List::new();
    for item in items {
        list.push(String::from(*item));
    }
    for _ in 0..downs {
        list.list_down();
    }
    list
}

fn item_texts(list: &List) -> Vec<&str> {
    list.items().iter().map(|item| item.as_str()).collect()
}

fn loaded_ok(text: &str) -> (List, List) {
    match parse_state(text) {
        Ok(lists) => lists,
        Err(error) => panic!("not loaded: {:?}", error),
    }
}

fn load_error(text: &str) -> LoadError {
    match parse_state(text) {
        Ok(_) => panic!("loaded"),
        Err(error) => error,
    }
}

#[test]
fn split_lines_cuts_at_newlines() {
    assert_eq!(split_lines("a\nb\nc"), vec!["a", "b", "c"]);
    assert_eq!(split_lines("a\nb\n"), vec!["a", "b"]);
    assert_eq!(split_lines(""), Vec::<String>::new());
    assert_eq!(split_lines("\n"), vec![""]);
    assert_eq!(split_lines("a\n\nb"), vec!["a", "", "b"]);
    assert_eq!(split_lines("\n\n"), vec!["", ""]);
    assert_eq!(split_lines("one line"), vec!["one line"]);
}

#[test]
fn split_lines_keeps_carriage_returns() {
    assert_eq!(split_lines("a\r\nb"), vec!["a\r", "b"]);
}

#[test]
fn parse_item_reads_both_kinds() {
    assert_eq!(parse_item("TODO: buy milk"), Some((Status::Todo, "buy milk")));
    assert_eq!(parse_item("DONE: call home"), Some((Status::Done, "call home")));
    assert_eq!(parse_item("TODO: "), Some((Status::Todo, "")));
    assert_eq!(parse_item("DONE: TODO: x"), Some((Status::Done, "TODO: x")));
    assert_eq!(parse_item("TODO:   spaced "), Some((Status::Todo, "  spaced ")));
}

#[test]
fn parse_item_refuses_other_lines() {
    assert_eq!(parse_item("MAYBE: foo"), None);
    assert_eq!(parse_item("TODO:"), None);
    assert_eq!(parse_item("TODO"), None);
    assert_eq!(parse_item(""), None);
    assert_eq!(parse_item(" TODO: x"), None);
    assert_eq!(parse_item("todo: x"), None);
    assert_eq!(parse_item("TODO_CURR: 0"), None);
}

#[test]
fn parse_header_reads_the_index() {
    assert_eq!(parse_header(Status::Todo, "TODO_CURR: 3"), Some(3));
    assert_eq!(parse_header(Status::Done, "DONE_CURR: 0"), Some(0));
    assert_eq!(parse_header(Status::Todo, "TODO_CURR: +12"), Some(12));
}

#[test]
fn parse_header_refuses_other_lines() {
    assert_eq!(parse_header(Status::Todo, "DONE_CURR: 3"), None);
    assert_eq!(parse_header(Status::Done, "TODO_CURR: 3"), None);
    assert_eq!(parse_header(Status::Todo, "TODO_CURR: "), None);
    assert_eq!(parse_header(Status::Todo, "TODO_CURR: x"), None);
    assert_eq!(parse_header(Status::Todo, "TODO_CURR: 3 "), None);
    assert_eq!(parse_header(Status::Todo, "TODO_CURR:3"), None);
    assert_eq!(parse_header(Status::Todo, "TODO: 3"), None);
}

#[test]
fn save_state_writes_headers_then_items() {
    let todo = filled(&["a", "b"], 1);
    let done = filled(&["c"], 0);
    assert_eq!(
        save_state(&todo, &done),
        "TODO_CURR: 1\nDONE_CURR: 0\nTODO: a\nTODO: b\nDONE: c\n"
    );
}

#[test]
fn save_state_of_empty_lists_is_two_headers() {
    assert_eq!(save_state(&List::new(), &List::new()), "TODO_CURR: 0\nDONE_CURR: 0\n");
}

#[test]
fn parse_state_reads_lists_and_selections() {
    let (todo, done) =
        loaded_ok("TODO_CURR: 1\nDONE_CURR: 2\nTODO: a\nTODO: b\nDONE: c\nDONE: d\nDONE: e\n");
    assert_eq!(item_texts(&todo), vec!["a", "b"]);
    assert_eq!(todo.curr(), 1);
    assert_eq!(item_texts(&done), vec!["c", "d", "e"]);
    assert_eq!(done.curr(), 2);
}

#[test]
fn parse_state_takes_item_lines_in_any_order() {
    let (todo, done) = loaded_ok("TODO_CURR: 0\nDONE_CURR: 0\nDONE: x\nTODO: a\nDONE: y\nTODO: b");
    assert_eq!(item_texts(&todo), vec!["a", "b"]);
    assert_eq!(item_texts(&done), vec!["x", "y"]);
}

#[test]
fn parse_state_of_empty_text_gives_empty_lists() {
    let (todo, done) = loaded_ok("");
    assert_eq!(todo.len(), 0);
    assert_eq!(todo.curr(), 0);
    assert_eq!(done.len(), 0);
    assert_eq!(done.curr(), 0);
}

#[test]
fn parse_state_of_headers_alone_gives_empty_lists() {
    let (todo, done) = loaded_ok("TODO_CURR: 0\nDONE_CURR: 0\n");
    assert_eq!(todo.len(), 0);
    assert_eq!(done.len(), 0);
    let (todo, done) = loaded_ok("TODO_CURR: 0");
    assert_eq!(todo.len(), 0);
    assert_eq!(done.len(), 0);
}

#[test]
fn parse_state_clamps_a_selection_past_the_end() {
    let (todo, done) = loaded_ok("TODO_CURR: 9\nDONE_CURR: 4\nTODO: a\nTODO: b\n");
    assert_eq!(todo.curr(), 1);
    assert_eq!(done.curr(), 0);
    assert_eq!(done.len(), 0);
}

#[test]
fn malformed_third_line_is_reported_with_its_number() {
    let error = load_error("TODO_CURR: 0\nDONE_CURR: 0\nMAYBE: foo\n");
    assert_eq!(error, LoadError::Malformed { line: 3 });
    assert!(matches!(
        load_state(Some("TODO_CURR: 0\nDONE_CURR: 0\nMAYBE: foo")),
        Err(LoadError::Malformed { line: 3 })
    ));
}

#[test]
fn first_malformed_line_is_the_one_reported() {
    let text = "TODO_CURR: 0\nDONE_CURR: 0\nTODO: ok\nnope\nDONE: ok\nnope again\n";
    assert_eq!(load_error(text), LoadError::Malformed { line: 4 });
}

#[test]
fn malformed_headers_are_reported() {
    assert_eq!(load_error("TODO: a\nDONE_CURR: 0\n"), LoadError::Malformed { line: 1 });
    assert_eq!(load_error("TODO_CURR: x\nDONE_CURR: 0\n"), LoadError::Malformed { line: 1 });
    assert_eq!(load_error("TODO_CURR: 0\nTODO: a\n"), LoadError::Malformed { line: 2 });
    assert_eq!(load_error("TODO_CURR: 0\nDONE_CURR: -1\n"), LoadError::Malformed { line: 2 });
    assert_eq!(load_error("\n"), LoadError::Malformed { line: 1 });
}

#[test]
fn empty_line_among_items_is_malformed() {
    assert_eq!(
        load_error("TODO_CURR: 0\nDONE_CURR: 0\nTODO: a\n\nTODO: b\n"),
        LoadError::Malformed { line: 4 }
    );
}

#[test]
fn header_line_with_carriage_return_is_malformed() {
    assert_eq!(load_error("TODO_CURR: 0\r\nDONE_CURR: 0\r\n"), LoadError::Malformed { line: 1 });
}

#[test]
fn nothing_saved_gives_two_empty_lists() {
    match load_state(None) {
        Ok((todo, done)) => {
            assert_eq!(todo.len(), 0);
            assert_eq!(todo.curr(), 0);
            assert_eq!(done.len(), 0);
            assert_eq!(done.curr(), 0);
        }
        Err(error) => panic!("not loaded: {:?}", error),
    }
}

#[test]
fn saved_lists_load_back_the_same() {
    let todo = filled(&["write report", "", "  padded  ", "TODO: nested", "ünïcödé ✓"], 3);
    let done = filled(&["DONE: x", "a\rb\r", "last"], 2);
    let text = save_state(&todo, &done);
    let (todo_back, done_back) = loaded_ok(&text);
    assert_eq!(todo_back.items(), todo.items());
    assert_eq!(todo_back.curr(), todo.curr());
    assert_eq!(done_back.items(), done.items());
    assert_eq!(done_back.curr(), done.curr());
    assert_eq!(save_state(&todo_back, &done_back), text);
}

#[test]
fn saved_empty_lists_load_back_empty() {
    let text = save_state(&List::new(), &List::new());
    let (todo, done) = loaded_ok(&text);
    assert_eq!(todo.len(), 0);
    assert_eq!(todo.curr(), 0);
    assert_eq!(done.len(), 0);
    assert_eq!(done.curr(), 0);
}

#[test]
fn saved_lists_of_every_small_size_load_back() {
    let names = ["a", "b", "c", "d"];
    for n in 0..=4usize {
        for m in 0..=4usize {
            for downs in 0..=n {
                let todo = filled(&names[..n], downs);
                let done = filled(&names[..m], m);
                let (todo_back, done_back) = loaded_ok(&save_state(&todo, &done));
                assert_eq!(todo_back.items(), todo.items());
                assert_eq!(todo_back.curr(), todo.curr());
                assert_eq!(done_back.items(), done.items());
                assert_eq!(done_back.curr(), done.curr());
            }
        }
    }
}

#[test]
fn item_with_newline_is_saved_as_two_lines() {
    let todo = filled(&["first\nsecond"], 0);
    let text = save_state(&todo, &List::new());
    assert_eq!(text, "TODO_CURR: 0\nDONE_CURR: 0\nTODO: first\nsecond\n");
    assert_eq!(load_error(&text), LoadError::Malformed { line: 4 });
}

#[test]
fn message_names_file_and_line() {
    let error = LoadError::Malformed { line: 3 };
    assert_eq!(error.message("tasks.txt"), "tasks.txt:3: ERROR: ill-formed item line");
    let error = LoadError::Malformed { line: 120 };
    assert_eq!(error.message(""), ":120: ERROR: ill-formed item line");
}
