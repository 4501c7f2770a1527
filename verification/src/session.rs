//! The state of the program between two key presses, and what each command
//! does to it.
//!
//! A session holds the pending list, the completed list, which of them is
//! active, and the line editor while a new item is being typed. Commands that
//! move, delete and transfer act on the active list. While the editor is
//! open only editing commands are heard; while it is closed they are ignored.

use crate::editor::{EditOp, EditorView, LineEditor};
use crate::list::{List, ListView};
use crate::status::Status;
use crate::store::{all_ok, first_bad, lines_of, load_state, loaded, save_state, saved_text};
use crate::store::LoadError;
use crate::text::{blank, is_blank};
use vstd::prelude::*;

verus! {

/// A key of the keyboard, as far as the program tells keys apart.
#[derive(Clone, Copy, Debug, PartialEq, Eq, Structural)]
pub enum Key {
    Char(char),
    Enter,
    Tab,
    Left,
    Right,
    Backspace,
    Delete,
    /// Any other key.
    Other,
}

/// A key that was pressed, and whether a modifier key was held with it.
#[derive(Clone, Copy, Debug, PartialEq, Eq, Structural)]
pub struct KeyPress {
    pub key: Key,
    pub modified: bool,
}

/// What the user can ask for.
#[derive(Clone, Copy, Debug, PartialEq, Eq, Structural)]
pub enum Command {
    /// Select the item above.
    Up,
    /// Select the item below.
    Down,
    /// Delete the selected item.
    Delete,
    /// Rename the selected item.
    Rename,
    /// Move the selected item to the other list.
    Transfer,
    /// Start typing a new item.
    BeginEdit,
    /// One editing command for the item being typed.
    Edit(EditOp),
    /// Finish typing and keep the item.
    ConfirmEdit,
    /// Finish typing and drop the item.
    CancelEdit,
    /// Make the other list the active one.
    Toggle,
    /// Leave the program.
    Quit,
}

/// The command that a key stands for while the lists are shown. Keys
/// pressed with a modifier stand for nothing.
pub open spec fn browse_command(press: KeyPress) -> Option<Command> {
    if press.modified {
        None
    } else {
        match press.key {
            Key::Char('w') => Some(Command::Up),
            Key::Char('s') => Some(Command::Down),
            Key::Char('x') => Some(Command::Delete),
            Key::Char('r') => Some(Command::Rename),
            Key::Char('n') => Some(Command::BeginEdit),
            Key::Char('q') => Some(Command::Quit),
            Key::Enter => Some(Command::Transfer),
            Key::Tab => Some(Command::Toggle),
            _ => None,
        }
    }
}

/// The command that a key stands for while an item is being typed,
/// whatever modifier is held.
pub open spec fn edit_command(key: Key) -> Option<Command> {
    match key {
        Key::Enter => Some(Command::ConfirmEdit),
        Key::Left => Some(Command::Edit(EditOp::Left)),
        Key::Right => Some(Command::Edit(EditOp::Right)),
        Key::Backspace => Some(Command::Edit(EditOp::Backspace)),
        Key::Delete => Some(Command::Edit(EditOp::Delete)),
        Key::Char(ch) => Some(Command::Edit(EditOp::Insert(ch))),
        _ => None,
    }
}

/// The command that a key press stands for, if any.
pub open spec fn command_of(press: KeyPress, editing: bool) -> Option<Command> {
    if editing {
        edit_command(press.key)
    } else {
        browse_command(press)
    }
}

/// Translates a key press into a command. Keys that stand for nothing give
/// `None`.
pub fn command_for(press: KeyPress, editing: bool) -> (cmd: Option<Command>)
    ensures
        cmd == command_of(press, editing),
{
    if editing {
        match press.key {
            Key::Enter => Some(Command::ConfirmEdit),
            Key::Left => Some(Command::Edit(EditOp::Left)),
            Key::Right => Some(Command::Edit(EditOp::Right)),
            Key::Backspace => Some(Command::Edit(EditOp::Backspace)),
            Key::Delete => Some(Command::Edit(EditOp::Delete)),
            Key::Char(ch) => Some(Command::Edit(EditOp::Insert(ch))),
            _ => None,
        }
    } else if press.modified {
        None
    } else {
        match press.key {
            Key::Char(ch) => {
                if ch == 'w' {
                    Some(Command::Up)
                } else if ch == 's' {
                    Some(Command::Down)
                } else if ch == 'x' {
                    Some(Command::Delete)
                } else if ch == 'r' {
                    Some(Command::Rename)
                } else if ch == 'n' {
                    Some(Command::BeginEdit)
                } else if ch == 'q' {
                    Some(Command::Quit)
                } else {
                    None
                }
            },
            Key::Enter => Some(Command::Transfer),
            Key::Tab => Some(Command::Toggle),
            _ => None,
        }
    }
}

/// What a session is, to contracts.
pub struct SessionView {
    pub todo: ListView,
    pub done: ListView,
    pub status: Status,
    pub editor: Option<EditorView>,
    pub quit: bool,
}

impl SessionView {
    /// Both lists are valid, and so is the editor if it is open.
    pub open spec fn wf(self) -> bool {
        &&& self.todo.wf()
        &&& self.done.wf()
        &&& self.editor matches Some(editor) ==> editor.wf()
    }

    /// A session that starts with the given lists: the pending list is
    /// active and nothing is being typed.
    pub open spec fn start(todo: ListView, done: ListView) -> SessionView {
        SessionView { todo, done, status: Status::Todo, editor: None, quit: false }
    }

    /// The list that takes the commands.
    pub open spec fn active(self) -> ListView {
        match self.status {
            Status::Todo => self.todo,
            Status::Done => self.done,
        }
    }

    /// The list that is only shown.
    pub open spec fn inactive(self) -> ListView {
        match self.status {
            Status::Todo => self.done,
            Status::Done => self.todo,
        }
    }

    /// The session with other lists in the place of the active and the
    /// inactive one.
    pub open spec fn with_lists(self, active: ListView, inactive: ListView) -> SessionView {
        match self.status {
            Status::Todo => SessionView { todo: active, done: inactive, ..self },
            Status::Done => SessionView { todo: inactive, done: active, ..self },
        }
    }

    /// The session after the editor was closed: the text that was typed is
    /// added to the pending list if it is to be kept. Nothing changes where
    /// no editor is open.
    pub open spec fn closed_edit(self, keep: bool) -> SessionView {
        match self.editor {
            Some(editor) => SessionView {
                todo: if keep { self.todo.pushed(editor.buffer) } else { self.todo },
                editor: None,
                ..self
            },
            None => self,
        }
    }

    /// The session after a command given while the lists are shown.
    pub open spec fn browsed(self, cmd: Command) -> SessionView {
        match cmd {
            Command::Up => self.with_lists(self.active().up(), self.inactive()),
            Command::Down => self.with_lists(self.active().down(), self.inactive()),
            Command::Delete => self.with_lists(self.active().removed(), self.inactive()),
            Command::Transfer => self.with_lists(
                self.active().removed(),
                self.active().received(self.inactive()),
            ),
            Command::BeginEdit => SessionView { editor: Some(EditorView::empty()), ..self },
            Command::Toggle => SessionView { status: self.status.other(), ..self },
            Command::Quit => SessionView { quit: true, ..self },
            Command::Rename | Command::Edit(_) | Command::ConfirmEdit | Command::CancelEdit => self,
        }
    }

    /// The session after a command given while `editor` is open. An item
    /// that is blank is not kept.
    pub open spec fn edited(self, editor: EditorView, cmd: Command) -> SessionView {
        match cmd {
            Command::Edit(op) => SessionView { editor: Some(editor.applied(op)), ..self },
            Command::ConfirmEdit => self.closed_edit(!blank(editor.buffer)),
            Command::CancelEdit => self.closed_edit(false),
            _ => self,
        }
    }

    /// The session after a command.
    pub open spec fn step(self, cmd: Command) -> SessionView {
        match self.editor {
            Some(editor) => self.edited(editor, cmd),
            None => self.browsed(cmd),
        }
    }
}

/// The two lists, the active status and the editor of a running program.
#[derive(Debug)]
pub struct Session {
    todo: List,
    done: List,
    status: Status,
    editor: Option<LineEditor>,
    quit: bool,
}

impl View for Session {
    type V = SessionView;

    closed spec fn view(&self) -> SessionView {
        SessionView {
            todo: self.todo@,
            done: self.done@,
            status: self.status,
            editor: match self.editor {
                Some(editor) => Some(editor@),
                None => None,
            },
            quit: self.quit,
        }
    }
}

impl Session {
    /// The invariant of the type: its lists and its editor are valid.
    pub open spec fn wf(&self) -> bool {
        self@.wf()
    }

    /// A session on the given lists. The pending list is active.
    pub fn new(todo: List, done: List) -> (res: Session)
        requires
            todo.wf(),
            done.wf(),
        ensures
            res.wf(),
            res@ == SessionView::start(todo@, done@),
    {
        Session { todo, done, status: Status::Todo, editor: None, quit: false }
    }

    /// A session on the lists that were saved, or on two empty lists where
    /// nothing was saved. Fails as [`load_state`] does.
    pub fn open(saved: Option<&str>) -> (res: Result<Session, LoadError>)
        ensures
            match (saved, res) {
                (None, Ok(session)) => session.wf() && session@ == SessionView::start(
                    ListView::empty(),
                    ListView::empty(),
                ),
                (Some(text), Ok(session)) => session.wf() && loaded(text@) == Some(
                    (session@.todo, session@.done),
                ) && session@ == SessionView::start(session@.todo, session@.done),
                (Some(text), Err(LoadError::Malformed { line })) => first_bad(
                    lines_of(text@),
                    line - 1,
                ),
                (None, Err(_)) => false,
            },
            res is Ok <==> (saved matches Some(text) ==> all_ok(lines_of(text@))),
    {
        match load_state(saved) {
            Ok((todo, done)) => Ok(Session::new(todo, done)),
            Err(error) => Err(error),
        }
    }

    /// The pending list.
    pub fn todo(&self) -> (list: &List)
        ensures
            list@ == self@.todo,
    {
        &self.todo
    }

    /// The completed list.
    pub fn done(&self) -> (list: &List)
        ensures
            list@ == self@.done,
    {
        &self.done
    }

    /// Which list is active.
    pub fn status(&self) -> (status: Status)
        ensures
            status == self@.status,
    {
        self.status
    }

    /// The editor, while an item is being typed.
    pub fn editor(&self) -> (editor: Option<&LineEditor>)
        ensures
            match editor {
                Some(editor) => self@.editor == Some(editor@),
                None => self@.editor is None,
            },
    {
        self.editor.as_ref()
    }

    /// Whether an item is being typed.
    pub fn is_editing(&self) -> (editing: bool)
        ensures
            editing == self@.editor is Some,
    {
        self.editor.is_some()
    }

    /// Whether the user asked to leave.
    pub fn wants_quit(&self) -> (quit: bool)
        ensures
            quit == self@.quit,
    {
        self.quit
    }

    /// The text to save for this session.
    pub fn save(&self) -> (out: String)
        ensures
            out@ == saved_text(self@.todo, self@.done),
    {
        save_state(&self.todo, &self.done)
    }

    /// Closes the editor. What was typed goes to the end of the pending list
    /// if `keep` is set, and is dropped if not. Nothing changes where no
    /// editor is open.
    pub fn close_edit(&mut self, keep: bool)
        requires
            old(self).wf(),
        ensures
            final(self).wf(),
            final(self)@ == old(self)@.closed_edit(keep),
    {
        match self.editor.take() {
            Some(editor) => {
                if keep {
                    self.todo.push(editor.commit());
                } else {
                    editor.cancel();
                }
            },
            None => {},
        }
    }

    /// Closes the editor and keeps what was typed unless it is blank.
    /// Nothing changes where no editor is open.
    pub fn confirm_edit(&mut self)
        requires
            old(self).wf(),
        ensures
            final(self).wf(),
            final(self)@ == match old(self)@.editor {
                Some(editor) => old(self)@.closed_edit(!blank(editor.buffer)),
                None => old(self)@,
            },
    {
        let keep = match &self.editor {
            Some(editor) => {
                let typed = editor.text();
                !is_blank(typed.as_str())
            },
            None => false,
        };
        self.close_edit(keep);
    }

    /// Carries out one command.
    pub fn apply(&mut self, cmd: Command)
        requires
            old(self).wf(),
        ensures
            final(self).wf(),
            final(self)@ == old(self)@.step(cmd),
    {
        if self.editor.is_some() {
            match cmd {
                Command::Edit(op) => {
                    match self.editor.take() {
                        Some(mut editor) => {
                            editor.apply(op);
                            self.editor = Some(editor);
                        },
                        None => {},
                    }
                },
                Command::ConfirmEdit => self.confirm_edit(),
                Command::CancelEdit => self.close_edit(false),
                _ => {},
            }
        } else {
            match cmd {
                Command::Up => match self.status {
                    Status::Todo => self.todo.list_up(),
                    Status::Done => self.done.list_up(),
                },
                Command::Down => match self.status {
                    Status::Todo => self.todo.list_down(),
                    Status::Done => self.done.list_down(),
                },
                Command::Delete => match self.status {
                    Status::Todo => self.todo.curr_delete(),
                    Status::Done => self.done.curr_delete(),
                },
                Command::Rename => {
                    let _ = match self.status {
                        Status::Todo => self.todo.rename_curr(),
                        Status::Done => self.done.rename_curr(),
                    };
                },
                Command::Transfer => match self.status {
                    Status::Todo => self.todo.transfer_curr_to(&mut self.done),
                    Status::Done => self.done.transfer_curr_to(&mut self.todo),
                },
                Command::BeginEdit => {
                    self.editor = Some(LineEditor::new());
                },
                Command::Toggle => {
                    self.status = self.status.change();
                },
                Command::Quit => {
                    self.quit = true;
                },
                _ => {},
            }
        }
    }

    /// Carries out the command that a key press stands for; a key that
    /// stands for nothing changes nothing.
    pub fn handle_key(&mut self, press: KeyPress)
        requires
            old(self).wf(),
        ensures
            final(self).wf(),
            final(self)@ == match command_of(press, old(self)@.editor is Some) {
                Some(cmd) => old(self)@.step(cmd),
                None => old(self)@,
            },
    {
        match command_for(press, self.editor.is_some()) {
            Some(cmd) => self.apply(cmd),
            None => {},
        }
    }
}

} // verus!
