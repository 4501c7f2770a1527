//! What a session looks like on the screen.
//!
//! The pending list is drawn from the top row: a heading, then one row for
//! each item. A rule follows, and below it the completed list in the same
//! way. The heading of the active list is green, and its selected item is
//! black on white. While an item is being typed, a prompt shows it.

use crate::list::{texts, ListView};
use crate::session::{Session, SessionView};
use crate::status::Status;
use crate::ui::{element_view, Color, Label, LabelView, Ui};
use vstd::prelude::*;
use vstd::string::StringExecFns;

verus! {

/// What each label is, in order.
pub open spec fn views(labels: Seq<Label>) -> Seq<LabelView> {
    labels.map_values(|label: Label| label@)
}

/// The heading of each list.
pub open spec fn heading_text(status: Status) -> Seq<char> {
    match status {
        Status::Todo => "TODO: "@,
        Status::Done => "DONE: "@,
    }
}

/// What stands before each item of a list: an empty box, or a ticked one.
pub open spec fn box_text(status: Status) -> Seq<char> {
    match status {
        Status::Todo => "- [ ] "@,
        Status::Done => "- [x] "@,
    }
}

/// The rule between the two lists. It starts on a new line.
pub open spec fn rule_text() -> Seq<char> {
    "\n-----------"@
}

/// The list of a status.
pub open spec fn pane_list(session: SessionView, status: Status) -> ListView {
    match status {
        Status::Todo => session.todo,
        Status::Done => session.done,
    }
}

/// The row of the heading of a list.
pub open spec fn pane_row(session: SessionView, status: Status) -> nat {
    match status {
        Status::Todo => 0,
        Status::Done => session.todo.items.len() + 3,
    }
}

/// The heading of a list: green where the list is the active one.
pub open spec fn heading(session: SessionView, status: Status) -> LabelView {
    LabelView {
        col: 0,
        row: pane_row(session, status),
        text: heading_text(status),
        foreground: if session.status == status { Color::Green } else { Color::Reset },
        background: Color::Reset,
    }
}

/// The label of item `i` of a list: highlighted where the list is the
/// active one and the item the selected one.
pub open spec fn element(session: SessionView, status: Status, i: int) -> LabelView {
    let list = pane_list(session, status);
    element_view(
        0,
        (pane_row(session, status) + 1 + i) as nat,
        box_text(status) + list.items[i],
        session.status == status && i == list.curr,
    )
}

/// The labels of a list: its heading, then its items.
pub open spec fn pane(session: SessionView, status: Status) -> Seq<LabelView> {
    seq![heading(session, status)] + Seq::new(
        pane_list(session, status).items.len(),
        |i: int| element(session, status, i),
    )
}

/// The label of the rule between the lists.
pub open spec fn rule(session: SessionView) -> LabelView {
    LabelView {
        col: 0,
        row: session.todo.items.len() + 1,
        text: rule_text(),
        foreground: Color::Reset,
        background: Color::Reset,
    }
}

/// All labels of a session, in the order in which they are drawn.
pub open spec fn frame_of(session: SessionView) -> Seq<LabelView> {
    pane(session, Status::Todo) + seq![rule(session)] + pane(session, Status::Done)
}

fn heading_str(status: Status) -> (text: &'static str)
    ensures
        text@ == heading_text(status),
{
    match status {
        Status::Todo => "TODO: ",
        Status::Done => "DONE: ",
    }
}

fn box_str(status: Status) -> (text: &'static str)
    ensures
        text@ == box_text(status),
{
    match status {
        Status::Todo => "- [ ] ",
        Status::Done => "- [x] ",
    }
}

/// Draws the list of `status` from the place where `ui` stands.
fn draw_pane(session: &Session, status: Status, ui: &mut Ui, labels: &mut Vec<Label>)
    requires
        session.wf(),
        old(ui).list_curr is None,
        old(ui).col == 0,
        old(ui).row == pane_row(session@, status),
        old(ui).row + pane_list(session@, status).items.len() + 1 <= usize::MAX,
    ensures
        views(final(labels)@) == views(old(labels)@) + pane(session@, status),
        final(ui).list_curr is None,
        final(ui).col == 0,
        final(ui).row == old(ui).row + pane_list(session@, status).items.len() + 1,
{
    let list = match status {
        Status::Todo => session.todo(),
        Status::Done => session.done(),
    };
    let active = session.status() == status;
    let top = ui.label(heading_str(status), if active { Some(Color::Green) } else { None }, None);
    assert(views(labels@.push(top)) =~= views(labels@).push(top@));
    labels.push(top);
    ui.begin_list(if active { list.curr() } else { list.len() });
    let items = list.items();
    let n = items.len();
    let ghost shown = pane(session@, status);
    let mut i: usize = 0;
    assert(views(labels@) =~= views(old(labels)@) + shown.take(1));
    while i < n
        invariant
            i <= n,
            n == items.len(),
            session.wf(),
            texts(items@) == pane_list(session@, status).items,
            active == (session@.status == status),
            shown == pane(session@, status),
            ui.list_curr == Some(
                if active {
                    pane_list(session@, status).curr as usize
                } else {
                    n
                },
            ),
            pane_list(session@, status).curr <= usize::MAX,
            ui.col == 0,
            ui.row == pane_row(session@, status) + 1 + i,
            pane_row(session@, status) + n + 1 <= usize::MAX,
            views(labels@) == views(old(labels)@) + shown.take(1 + i),
        decreases n - i,
    {
        let mut text = String::from_str(box_str(status));
        text.append(items[i].as_str());
        let drawn = ui.list_element(text.as_str(), i);
        proof {
            assert(drawn@ == element(session@, status, i as int));
            assert(shown.take(2 + i) =~= shown.take(1 + i).push(drawn@));
            assert(views(labels@.push(drawn)) =~= views(labels@).push(drawn@));
        }
        labels.push(drawn);
        i += 1;
    }
    assert(shown.take(1 + n) =~= shown);
    ui.end_list();
    ui.end();
}

/// The labels that show a session: the pending list, the rule, the
/// completed list. The rows must fit a `usize`.
pub fn frame(session: &Session) -> (labels: Vec<Label>)
    requires
        session.wf(),
        session@.todo.items.len() + session@.done.items.len() + 4 <= usize::MAX,
    ensures
        views(labels@) == frame_of(session@),
{
    let mut ui = Ui::default();
    let mut labels: Vec<Label> = Vec::new();
    assert(views(labels@) =~= Seq::<LabelView>::empty());
    ui.begin(0, 0);
    draw_pane(session, Status::Todo, &mut ui, &mut labels);
    let line = ui.label("\n-----------", None, None);
    assert(views(labels@.push(line)) =~= views(labels@).push(line@));
    labels.push(line);
    ui.begin(0, session.todo().len() + 3);
    draw_pane(session, Status::Done, &mut ui, &mut labels);
    assert(views(labels@) =~= frame_of(session@));
    labels
}

/// What a prompt is, to contracts.
pub struct PromptView {
    pub col: nat,
    pub row: nat,
    pub text: Seq<char>,
    pub cursor: nat,
}

/// The line on which an item is typed: where it starts, what it holds, and
/// how many characters from its start the cursor stands.
#[derive(Debug)]
pub struct Prompt {
    pub col: usize,
    pub row: usize,
    pub text: String,
    pub cursor: usize,
}

impl View for Prompt {
    type V = PromptView;

    open spec fn view(&self) -> PromptView {
        PromptView {
            col: self.col as nat,
            row: self.row as nat,
            text: self.text@,
            cursor: self.cursor as nat,
        }
    }
}

/// The prompt of a session: below the pending list, holding what was typed.
pub open spec fn prompt_of(session: SessionView) -> Option<PromptView> {
    match session.editor {
        Some(editor) => Some(
            PromptView {
                col: 0,
                row: session.todo.items.len() + 1,
                text: editor.buffer,
                cursor: editor.cursor,
            },
        ),
        None => None,
    }
}

/// The prompt to show, while an item is being typed. Its row must fit a
/// `usize`.
pub fn prompt(session: &Session) -> (shown: Option<Prompt>)
    requires
        session@.todo.items.len() < usize::MAX,
    ensures
        match shown {
            Some(shown) => prompt_of(session@) == Some(shown@),
            None => prompt_of(session@) is None,
        },
{
    match session.editor() {
        Some(editor) => Some(
            Prompt {
                col: 0,
                row: session.todo().len() + 1,
                text: editor.text(),
                cursor: editor.cursor(),
            },
        ),
        None => None,
    }
}

} // verus!
