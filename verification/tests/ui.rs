use todo_rs::ui::{Color, Ui};

#[test]
fn default_ui_stands_at_top_left() {
    let ui = Ui::default();
    assert_eq!(ui.row, 0);
    assert_eq!(ui.col, 0);
    assert_eq!(ui.list_curr, None);
}

#[test]
fn begin_sets_the_place() {
    let mut ui = Ui::default();
    ui.begin(4, 7);
    assert_eq!(ui.col, 4);
    assert_eq!(ui.row, 7);
    assert_eq!(ui.list_curr, None);
}

#[test]
fn label_is_drawn_at_the_place_and_moves_one_row_down() {
    let mut ui = Ui::default();
    ui.begin(2, 5);
    let drawn = ui.label("hello", Some(Color::Green), None);
    assert_eq!(drawn.col, 2);
    assert_eq!(drawn.row, 5);
    assert_eq!(drawn.text, "hello");
    assert_eq!(drawn.foreground, Color::Green);
    assert_eq!(drawn.background, Color::Reset);
    assert_eq!(ui.row, 6);
    assert_eq!(ui.col, 2);
    let next = ui.label("again", None, Some(Color::White));
    assert_eq!(next.row, 6);
    assert_eq!(next.foreground, Color::Reset);
    assert_eq!(next.background, Color::White);
    assert_eq!(ui.row, 7);
}

#[test]
fn list_element_is_highlighted_when_selected() {
    let mut ui = Ui::default();
    ui.begin(0, 1);
    ui.begin_list(1);
    assert_eq!(ui.list_curr, Some(1));
    let first = ui.list_element("a", 0);
    let second = ui.list_element("b", 1);
    let third = ui.list_element("c", 2);
    ui.end_list();
    ui.end();
    assert_eq!((first.foreground, first.background), (Color::Reset, Color::Reset));
    assert_eq!((second.foreground, second.background), (Color::Black, Color::White));
    assert_eq!((third.foreground, third.background), (Color::Reset, Color::Reset));
    assert_eq!((first.row, second.row, third.row), (1, 2, 3));
    assert_eq!(second.text, "b");
    assert_eq!(ui.list_curr, None);
    assert_eq!(ui.row, 4);
}

#[test]
fn end_changes_nothing() {
    let mut ui = Ui::default();
    ui.begin(3, 9);
    ui.end();
    assert_eq!(ui.col, 3);
    assert_eq!(ui.row, 9);
    assert_eq!(ui.list_curr, None);
}
