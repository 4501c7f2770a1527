//! Laying out labels on the screen, one row after the other.
//!
//! A [`Ui`] keeps the place of the next label. Each call that draws hands out
//! a [`Label`]: the text, where it goes and its colours. Putting the labels on
//! a terminal is left to the caller.

use vstd::prelude::*;

verus! {

/// The colours that labels use.
#[derive(Clone, Copy, Debug, PartialEq, Eq, Structural)]
pub enum Color {
    /// The terminal's own colour.
    Reset,
    Black,
    White,
    Green,
}

/// What a label is, to contracts.
pub struct LabelView {
    pub col: nat,
    pub row: nat,
    pub text: Seq<char>,
    pub foreground: Color,
    pub background: Color,
}

/// One piece of text to draw: its place and its colours.
#[derive(Debug)]
pub struct Label {
    pub col: usize,
    pub row: usize,
    pub text: String,
    pub foreground: Color,
    pub background: Color,
}

impl View for Label {
    type V = LabelView;

    open spec fn view(&self) -> LabelView {
        LabelView {
            col: self.col as nat,
            row: self.row as nat,
            text: self.text@,
            foreground: self.foreground,
            background: self.background,
        }
    }
}

/// The given colour, or the terminal's own where none is given.
pub open spec fn color_or_reset(color: Option<Color>) -> Color {
    match color {
        Some(color) => color,
        None => Color::Reset,
    }
}

/// The label of a list element at a place: black on white where the element
/// is the selected one, the terminal's own colours elsewhere.
pub open spec fn element_view(col: nat, row: nat, text: Seq<char>, selected: bool) -> LabelView {
    LabelView {
        col,
        row,
        text,
        foreground: if selected { Color::Black } else { Color::Reset },
        background: if selected { Color::White } else { Color::Reset },
    }
}

/// The place of the next label, and the selected element of the list that
/// is being drawn, if one is.
#[derive(Debug)]
pub struct Ui {
    pub list_curr: Option<usize>,
    pub row: usize,
    pub col: usize,
}

impl Default for Ui {
    /// A layout at the top left corner, outside any list.
    fn default() -> (ui: Ui)
        ensures
            ui.list_curr is None,
            ui.row == 0,
            ui.col == 0,
    {
        Ui { list_curr: None, row: 0, col: 0 }
    }
}

impl Ui {
    /// Starts a block of labels at a column and a row.
    pub fn begin(&mut self, col: usize, row: usize)
        ensures
            final(self).col == col,
            final(self).row == row,
            final(self).list_curr == old(self).list_curr,
    {
        self.row = row;
        self.col = col;
    }

    /// Starts a list whose selected element is the one with this `id`.
    /// A list cannot start inside another.
    pub fn begin_list(&mut self, id: usize)
        requires
            old(self).list_curr is None,
        ensures
            final(self).list_curr == Some(id),
            final(self).row == old(self).row,
            final(self).col == old(self).col,
    {
        self.list_curr = Some(id);
    }

    /// Draws one element of the list that was started: highlighted where
    /// `id` is the selected one. The next label goes one row below.
    pub fn list_element(&mut self, label: &str, id: usize) -> (drawn: Label)
        requires
            old(self).list_curr is Some,
            old(self).row < usize::MAX,
        ensures
            drawn@ == element_view(
                old(self).col as nat,
                old(self).row as nat,
                label@,
                old(self).list_curr == Some(id),
            ),
            final(self).row == old(self).row + 1,
            final(self).col == old(self).col,
            final(self).list_curr == old(self).list_curr,
    {
        let selected = match self.list_curr {
            Some(id_curr) => id_curr == id,
            None => false,
        };
        self.label(
            label,
            if selected { Some(Color::Black) } else { None },
            if selected { Some(Color::White) } else { None },
        )
    }

    /// Ends the list that was started.
    pub fn end_list(&mut self)
        ensures
            final(self).list_curr is None,
            final(self).row == old(self).row,
            final(self).col == old(self).col,
    {
        self.list_curr = None;
    }

    /// Draws `text` at the current place, in the given colours or in the
    /// terminal's own. The next label goes one row below.
    pub fn label(
        &mut self,
        text: &str,
        foreground_color: Option<Color>,
        background_color: Option<Color>,
    ) -> (drawn: Label)
        requires
            old(self).row < usize::MAX,
        ensures
            drawn@ == (LabelView {
                col: old(self).col as nat,
                row: old(self).row as nat,
                text: text@,
                foreground: color_or_reset(foreground_color),
                background: color_or_reset(background_color),
            }),
            final(self).row == old(self).row + 1,
            final(self).col == old(self).col,
            final(self).list_curr == old(self).list_curr,
    {
        let drawn = Label {
            col: self.col,
            row: self.row,
            text: text.to_owned(),
            foreground: foreground_color.unwrap_or(Color::Reset),
            background: background_color.unwrap_or(Color::Reset),
        };
        self.row += 1;
        drawn
    }

    /// Ends a block of labels. The layout stays as it is.
    pub fn end(&mut self)
        ensures
            *final(self) == *old(self),
    {
    }
}

} // verus!
