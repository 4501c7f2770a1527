//! An ordered list of text items with one selected position.
//!
//! The selection always points at an item of the list, or is 0 when the list
//! is empty. Moving past either end and deleting from an empty list are not
//! errors: they leave the list as it is.

use vstd::prelude::*;

verus! {

/// What a list is, to contracts: its items in order and the selected index.
pub struct ListView {
    pub items: Seq<Seq<char>>,
    pub curr: nat,
}

/// One step of the selection.
pub enum Move {
    Up,
    Down,
}

impl ListView {
    /// The selection points at an item, or is 0 when there is none.
    pub open spec fn wf(self) -> bool {
        if self.items.len() == 0 {
            self.curr == 0
        } else {
            self.curr < self.items.len()
        }
    }

    /// The list with no items.
    pub open spec fn empty() -> ListView {
        ListView { items: Seq::empty(), curr: 0 }
    }

    /// The given items with the selection as close to `curr` as the items allow.
    pub open spec fn clamped(items: Seq<Seq<char>>, curr: nat) -> ListView {
        ListView {
            items,
            curr: if items.len() == 0 {
                0
            } else if curr >= items.len() {
                (items.len() - 1) as nat
            } else {
                curr
            },
        }
    }

    /// The selection moved one step towards the front, stopping at the first item.
    pub open spec fn up(self) -> ListView {
        ListView { items: self.items, curr: if self.curr > 0 { (self.curr - 1) as nat } else { 0 } }
    }

    /// The selection moved one step towards the back, stopping at the last item.
    pub open spec fn down(self) -> ListView {
        ListView {
            items: self.items,
            curr: if self.curr + 1 < self.items.len() { self.curr + 1 } else { self.curr },
        }
    }

    /// The selection moved by one step.
    pub open spec fn moved(self, step: Move) -> ListView {
        match step {
            Move::Up => self.up(),
            Move::Down => self.down(),
        }
    }

    /// The selection moved by each of `steps` in turn.
    pub open spec fn after(self, steps: Seq<Move>) -> ListView
        decreases steps.len(),
    {
        if steps.len() == 0 {
            self
        } else {
            self.after(steps.drop_last()).moved(steps.last())
        }
    }

    /// The list with `item` added at the end; the selection stays where it is.
    pub open spec fn pushed(self, item: Seq<char>) -> ListView {
        ListView { items: self.items.push(item), curr: self.curr }
    }

    /// The selected item, if the list has any.
    pub open spec fn selected(self) -> Option<Seq<char>> {
        if self.items.len() == 0 {
            None
        } else {
            Some(self.items[self.curr as int])
        }
    }

    /// The list without its selected item. The selection keeps its index, and
    /// steps back once if that index fell off the end. An empty list stays as it is.
    pub open spec fn removed(self) -> ListView {
        if self.items.len() == 0 {
            self
        } else {
            let kept = ListView { items: self.items.remove(self.curr as int), curr: self.curr };
            if kept.curr == kept.items.len() {
                kept.up()
            } else {
                kept
            }
        }
    }

    /// The target of a transfer from `self`: it gains the selected item of
    /// `self` at its end, or stays as it is when `self` is empty.
    pub open spec fn received(self, target: ListView) -> ListView {
        match self.selected() {
            Some(item) => target.pushed(item),
            None => target,
        }
    }
}

/// However the selection is moved up and down, it stays valid and the items
/// stay as they are: the selected index stays below the number of items, or
/// at 0 in an empty list.
pub proof fn lemma_moves_keep_selection_valid(list: ListView, steps: Seq<Move>)
    requires
        list.wf(),
    ensures
        list.after(steps).wf(),
        list.after(steps).items == list.items,
        list.items.len() > 0 ==> list.after(steps).curr < list.items.len(),
        list.items.len() == 0 ==> list.after(steps).curr == 0,
    decreases steps.len(),
{
    if steps.len() > 0 {
        lemma_moves_keep_selection_valid(list, steps.drop_last());
    }
}

/// The text of each string, in order.
pub open spec fn texts(list: Seq<String>) -> Seq<Seq<char>> {
    list.map_values(|t: String| t@)
}

/// Signals that an operation exists by name only and did nothing.
#[derive(Clone, Copy, Debug, PartialEq, Eq, Structural)]
pub struct NotSupported;

/// A list of text items and the index of the selected one.
#[derive(Debug)]
pub struct List {
    list: Vec<String>,
    curr: usize,
}

impl View for List {
    type V = ListView;

    closed spec fn view(&self) -> ListView {
        ListView { items: texts(self.list@), curr: self.curr as nat }
    }
}

impl List {
    /// The invariant of the type: the selection is valid for the items.
    pub open spec fn wf(&self) -> bool {
        self@.wf()
    }

    /// The selected index and the number of items fit a `usize`.
    pub proof fn lemma_fits(self)
        ensures
            self@.curr <= usize::MAX,
            self@.items.len() <= usize::MAX,
    {
        assert(self@.items.len() == self.list.len());
    }

    /// An empty list.
    pub fn new() -> (res: List)
        ensures
            res.wf(),
            res@ == ListView::empty(),
    {
        let res = List { list: Vec::new(), curr: 0 };
        assert(res@.items =~= Seq::<Seq<char>>::empty());
        res
    }

    /// A list of the given items whose selection is `curr`, or the nearest
    /// valid index where `curr` is past the end.
    pub fn restore(items: Vec<String>, curr: usize) -> (res: List)
        ensures
            res.wf(),
            res@ == ListView::clamped(texts(items@), curr as nat),
    {
        let n = items.len();
        let at = if n == 0 {
            0
        } else if curr >= n {
            n - 1
        } else {
            curr
        };
        List { list: items, curr: at }
    }

    /// The number of items.
    pub fn len(&self) -> (n: usize)
        ensures
            n == self@.items.len(),
    {
        self.list.len()
    }

    /// The selected index; 0 when the list is empty.
    pub fn curr(&self) -> (at: usize)
        ensures
            at == self@.curr,
    {
        self.curr
    }

    /// The items, in order.
    pub fn items(&self) -> (all: &Vec<String>)
        ensures
            texts(all@) == self@.items,
    {
        &self.list
    }

    /// The item at index `i`.
    pub fn get(&self, i: usize) -> (item: Option<&String>)
        ensures
            match item {
                Some(text) => i < self@.items.len() && text@ == self@.items[i as int],
                None => i >= self@.items.len(),
            },
    {
        if i < self.list.len() {
            Some(&self.list[i])
        } else {
            None
        }
    }

    /// Moves the selection one item up; stays on the first item.
    pub fn list_up(&mut self)
        requires
            old(self).wf(),
        ensures
            final(self).wf(),
            final(self)@ == old(self)@.up(),
    {
        if self.curr > 0 {
            self.curr -= 1;
        }
    }

    /// Moves the selection one item down; stays on the last item, and at 0 in
    /// an empty list.
    pub fn list_down(&mut self)
        requires
            old(self).wf(),
        ensures
            final(self).wf(),
            final(self)@ == old(self)@.down(),
    {
        let n = self.len();
        if self.curr + 1 < n {
            self.curr += 1;
        }
    }

    /// Adds `text` at the end. The selection does not move.
    pub fn push(&mut self, text: String)
        requires
            old(self).wf(),
        ensures
            final(self).wf(),
            final(self)@ == old(self)@.pushed(text@),
    {
        self.list.push(text);
        assert(final(self)@.items =~= old(self)@.items.push(text@));
    }

    /// Removes the selected item and hands it out; `None`, and nothing
    /// changes, when the list is empty. The selection keeps its index unless
    /// the last item was removed, in which case it steps back onto the new
    /// last item.
    pub fn curr_delete_ret(&mut self) -> (res: Option<String>)
        requires
            old(self).wf(),
        ensures
            final(self).wf(),
            final(self)@ == old(self)@.removed(),
            match res {
                Some(text) => old(self)@.selected() == Some(text@),
                None => old(self)@.selected() is None,
            },
            old(self)@.items.len() > 0 ==> final(self)@.items.len() == old(self)@.items.len() - 1,
            old(self)@.items.len() == 0 ==> *final(self) == *old(self),
    {
        if self.len() > 0 {
            let deleted = self.list.remove(self.curr);
            assert(texts(self.list@) =~= old(self)@.items.remove(old(self)@.curr as int));
            if self.curr == self.len() && self.curr > 0 {
                self.curr -= 1;
            }
            Some(deleted)
        } else {
            None
        }
    }

    /// Removes the selected item; nothing changes when the list is empty.
    /// The selection moves as in [`List::curr_delete_ret`].
    pub fn curr_delete(&mut self)
        requires
            old(self).wf(),
        ensures
            final(self).wf(),
            final(self)@ == old(self)@.removed(),
            old(self)@.items.len() > 0 ==> final(self)@.items.len() == old(self)@.items.len() - 1,
            old(self)@.items.len() == 0 ==> *final(self) == *old(self),
    {
        let _ = self.curr_delete_ret();
    }

    /// Moves the selected item to the end of `target_list`. Nothing changes in
    /// either list when this one is empty.
    pub fn transfer_curr_to(&mut self, target_list: &mut List)
        requires
            old(self).wf(),
            old(target_list).wf(),
        ensures
            final(self).wf(),
            final(target_list).wf(),
            final(self)@ == old(self)@.removed(),
            final(target_list)@ == old(self)@.received(old(target_list)@),
            final(self)@.items.len() + final(target_list)@.items.len() == old(self)@.items.len()
                + old(target_list)@.items.len(),
            old(self)@.items.len() == 0 ==> *final(self) == *old(self) && *final(target_list)
                == *old(target_list),
    {
        match self.curr_delete_ret() {
            Some(text) => target_list.push(text),
            None => {},
        }
    }

    /// Renaming the selected item is not supported: the call changes nothing
    /// and says so.
    pub fn rename_curr(&mut self) -> (res: Result<(), NotSupported>)
        ensures
            res is Err,
            *final(self) == *old(self),
    {
        Err(NotSupported)
    }
}

} // verus!
