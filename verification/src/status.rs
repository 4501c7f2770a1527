//! Which of the two lists is active.

use vstd::prelude::*;

verus! {

/// The two states an item can be in; also names the pane that takes commands.
#[derive(Clone, Copy, Debug, PartialEq, Eq, Structural)]
pub enum Status {
    Todo,
    Done,
}

impl Status {
    /// The other status.
    pub open spec fn other(self) -> Status {
        match self {
            Status::Todo => Status::Done,
            Status::Done => Status::Todo,
        }
    }

    /// Switches to the other pane.
    pub fn change(&self) -> (res: Status)
        ensures
            res == self.other(),
    {
        match self {
            Status::Todo => Status::Done,
            Status::Done => Status::Todo,
        }
    }
}

} // verus!
