use todo_rs::list::List;
use todo_rs::screen::{frame, prompt};
use todo_rs::session::{Command, Session};
use todo_rs::ui::{Color, Label};

fn opened(text: &str) -> Session {
    match Session::open(Some(text)) {
        Ok(session) => session,
        Err(error) => panic!("not loaded: {:?}", error),
    }
}

fn drawn(label: &Label) -> (usize, usize, &str, Color, Color) {
    (label.col, label.row, label.text.as_str(), label.foreground, label.background)
}

#[test]
fn frame_of_empty_session() {
    let session = Session::new(List::new(), List::new());
    let labels = frame(&session);
    assert_eq!(labels.len(), 3);
    assert_eq!(drawn(&labels[0]), (0, 0, "TODO: ", Color::Green, Color::Reset));
    assert_eq!(drawn(&labels[1]), (0, 1, "\n-----------", Color::Reset, Color::Reset));
    assert_eq!(drawn(&labels[2]), (0, 3, "DONE: ", Color::Reset, Color::Reset));
}

#[test]
fn frame_highlights_selected_item_of_active_list() {
    let session = opened("TODO_CURR: 1\nDONE_CURR: 0\nTODO: a\nTODO: b\nDONE: x\n");
    let labels = frame(&session);
    assert_eq!(labels.len(), 6);
    assert_eq!(drawn(&labels[0]), (0, 0, "TODO: ", Color::Green, Color::Reset));
    assert_eq!(drawn(&labels[1]), (0, 1, "- [ ] a", Color::Reset, Color::Reset));
    assert_eq!(drawn(&labels[2]), (0, 2, "- [ ] b", Color::Black, Color::White));
    assert_eq!(drawn(&labels[3]), (0, 3, "\n-----------", Color::Reset, Color::Reset));
    assert_eq!(drawn(&labels[4]), (0, 5, "DONE: ", Color::Reset, Color::Reset));
    assert_eq!(drawn(&labels[5]), (0, 6, "- [x] x", Color::Reset, Color::Reset));
}

#[test]
fn frame_follows_the_active_list() {
    let mut session = opened("TODO_CURR: 0\nDONE_CURR: 1\nTODO: a\nDONE: x\nDONE: y\n");
    session.apply(Command::Toggle);
    let labels = frame(&session);
    assert_eq!(labels.len(), 6);
    assert_eq!(drawn(&labels[0]), (0, 0, "TODO: ", Color::Reset, Color::Reset));
    assert_eq!(drawn(&labels[1]), (0, 1, "- [ ] a", Color::Reset, Color::Reset));
    assert_eq!(drawn(&labels[2]), (0, 2, "\n-----------", Color::Reset, Color::Reset));
    assert_eq!(drawn(&labels[3]), (0, 4, "DONE: ", Color::Green, Color::Reset));
    assert_eq!(drawn(&labels[4]), (0, 5, "- [x] x", Color::Reset, Color::Reset));
    assert_eq!(drawn(&labels[5]), (0, 6, "- [x] y", Color::Black, Color::White));
}

#[test]
fn prompt_is_absent_while_browsing() {
    let session = opened("TODO_CURR: 0\nDONE_CURR: 0\nTODO: a\n");
    assert!(prompt(&session).is_none());
}

#[test]
fn prompt_shows_what_is_typed_below_the_pending_list() {
    let mut session = opened("TODO_CURR: 0\nDONE_CURR: 0\nTODO: a\nTODO: b\n");
    session.apply(Command::BeginEdit);
    match prompt(&session) {
        Some(shown) => {
            assert_eq!((shown.col, shown.row, shown.cursor), (0, 3, 0));
            assert_eq!(shown.text, "");
        }
        None => panic!("no prompt"),
    }
    for ch in "hey".chars() {
        session.apply(Command::Edit(todo_rs::editor::EditOp::Insert(ch)));
    }
    session.apply(Command::Edit(todo_rs::editor::EditOp::Left));
    match prompt(&session) {
        Some(shown) => {
            assert_eq!((shown.col, shown.row, shown.cursor), (0, 3, 2));
            assert_eq!(shown.text, "hey");
        }
        None => panic!("no prompt"),
    }
}
