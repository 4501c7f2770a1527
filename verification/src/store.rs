//! The saved form of the two lists: a text of lines.
//!
//! ```text
//! TODO_CURR: <number>     selected index of the pending list
//! DONE_CURR: <number>     selected index of the completed list
//! TODO: <text>            one line for each pending item, in order
//! DONE: <text>            one line for each completed item, in order
//! ```
//!
//! Lines end with a newline character; the last one may go without. The
//! first line, if there is one, must be the `TODO_CURR` header and the
//! second the `DONE_CURR` header. Every later line must be an item line.
//! Item lines of the two kinds may come in any order; each list keeps the
//! order of its own lines.

use crate::list::{texts, List, ListView};
use crate::number::{
    decimal, is_digit, lemma_decimal_round_trip, number_of, parse_number, push_decimal,
};
use crate::status::Status;
use crate::text::{after_prefix, chars_of, string_of};
use vstd::prelude::*;
use vstd::string::StringExecFns;

verus! {

/// No character of `s` is a newline.
pub open spec fn no_newline(s: Seq<char>) -> bool {
    forall|i: int| 0 <= i < s.len() ==> #[trigger] s[i] != '\n'
}

/// None of `items` holds a newline.
pub open spec fn single_lines(items: Seq<Seq<char>>) -> bool {
    forall|i: int| 0 <= i < items.len() ==> no_newline(#[trigger] items[i])
}

/// The number of characters before the first newline of `text`, or the
/// length of `text` where it has none.
pub open spec fn first_line_len(text: Seq<char>) -> nat
    decreases text.len(),
{
    if text.len() == 0 || text[0] == '\n' {
        0
    } else {
        1 + first_line_len(text.skip(1))
    }
}

/// The lines of `text`, without their newlines. A newline ends a line; what
/// follows the last newline is a line of its own unless it is empty.
pub open spec fn lines_of(text: Seq<char>) -> Seq<Seq<char>>
    decreases text.len(),
{
    if text.len() == 0 {
        Seq::empty()
    } else {
        let k = first_line_len(text) as int;
        if k >= text.len() {
            seq![text]
        } else {
            seq![text.take(k)] + lines_of(text.skip(k + 1))
        }
    }
}

/// Where the first line of a text ends: at `k`, if no newline comes before
/// `k` and `k` is a newline or the end.
proof fn lemma_first_line_len(text: Seq<char>, k: int)
    requires
        0 <= k <= text.len(),
        no_newline(text.take(k)),
        k < text.len() ==> text[k] == '\n',
    ensures
        first_line_len(text) == k,
    decreases k,
{
    if k > 0 {
        assert(text.take(k)[0] != '\n');
        let rest = text.skip(1);
        assert forall|i: int| 0 <= i < k - 1 implies #[trigger] rest.take(k - 1)[i] != '\n' by {
            assert(text.take(k)[i + 1] != '\n');
        }
        lemma_first_line_len(rest, k - 1);
    }
}

/// A line, its newline and more text split into that line and the lines of
/// the rest.
proof fn lemma_lines_of_line_then(line: Seq<char>, rest: Seq<char>)
    requires
        no_newline(line),
    ensures
        lines_of(line + seq!['\n'] + rest) == seq![line] + lines_of(rest),
{
    let text = line + seq!['\n'] + rest;
    let k = line.len() as int;
    assert(text.take(k) =~= line);
    assert(text[k] == '\n');
    lemma_first_line_len(text, k);
    assert(text.skip(k + 1) =~= rest);
}

/// Text without a newline is one line, or none if it is empty.
proof fn lemma_lines_of_last(text: Seq<char>)
    requires
        no_newline(text),
    ensures
        lines_of(text) == if text.len() == 0 {
            Seq::<Seq<char>>::empty()
        } else {
            seq![text]
        },
{
    assert(text.take(text.len() as int) =~= text);
    lemma_first_line_len(text, text.len() as int);
}

/// Splits `text` into its lines.
pub fn split_lines(text: &str) -> (lines: Vec<String>)
    ensures
        texts(lines@) == lines_of(text@),
{
    let chars = chars_of(text);
    let n = chars.len();
    let mut lines: Vec<String> = Vec::new();
    let mut start: usize = 0;
    let mut i: usize = 0;
    assert(texts(lines@) =~= Seq::<Seq<char>>::empty());
    assert(chars@.skip(0) =~= chars@);
    while i < n
        invariant
            start <= i <= n,
            n == chars.len(),
            chars@ == text@,
            no_newline(chars@.subrange(start as int, i as int)),
            lines_of(text@) == texts(lines@) + lines_of(chars@.skip(start as int)),
        decreases n - i,
    {
        if chars[i] == '\n' {
            let line = string_of(&chars, start, i);
            proof {
                let tail = chars@.skip(start as int);
                let after = chars@.skip(i + 1);
                assert(tail =~= line@ + seq!['\n'] + after);
                lemma_lines_of_line_then(line@, after);
                assert(texts(lines@.push(line)) =~= texts(lines@).push(line@));
            }
            lines.push(line);
            start = i + 1;
            assert(chars@.subrange(start as int, start as int) =~= Seq::<char>::empty());
        } else {
            assert forall|j: int| 0 <= j < i + 1 - start implies #[trigger] chars@.subrange(
                start as int,
                i + 1,
            )[j] != '\n' by {
                if j < i - start {
                    assert(chars@.subrange(start as int, i as int)[j] != '\n');
                }
            }
        }
        i += 1;
    }
    proof {
        assert(chars@.skip(start as int) =~= chars@.subrange(start as int, n as int));
        lemma_lines_of_last(chars@.skip(start as int));
    }
    if start < n {
        let line = string_of(&chars, start, n);
        assert(texts(lines@.push(line)) =~= texts(lines@).push(line@));
        lines.push(line);
    }
    lines
}

/// What an item line of each status starts with.
pub open spec fn item_tag(status: Status) -> Seq<char> {
    match status {
        Status::Todo => "TODO: "@,
        Status::Done => "DONE: "@,
    }
}

/// What the header line of each list starts with.
pub open spec fn curr_tag(status: Status) -> Seq<char> {
    match status {
        Status::Todo => "TODO_CURR: "@,
        Status::Done => "DONE_CURR: "@,
    }
}

/// The status and text that an item line holds.
pub open spec fn item_of(line: Seq<char>) -> Option<(Status, Seq<char>)> {
    if item_tag(Status::Done).is_prefix_of(line) {
        Some((Status::Done, line.skip(item_tag(Status::Done).len() as int)))
    } else if item_tag(Status::Todo).is_prefix_of(line) {
        Some((Status::Todo, line.skip(item_tag(Status::Todo).len() as int)))
    } else {
        None
    }
}

/// The selected index that the header line of the `status` list holds.
pub open spec fn header_of(status: Status, line: Seq<char>) -> Option<usize> {
    if curr_tag(status).is_prefix_of(line) {
        number_of(line.skip(curr_tag(status).len() as int))
    } else {
        None
    }
}

/// Line `i` is what the format asks for at its place: the two headers
/// first, item lines after them.
pub open spec fn line_ok(lines: Seq<Seq<char>>, i: int) -> bool {
    if i == 0 {
        header_of(Status::Todo, lines[i]) is Some
    } else if i == 1 {
        header_of(Status::Done, lines[i]) is Some
    } else {
        item_of(lines[i]) is Some
    }
}

/// Every line is what the format asks for.
pub open spec fn all_ok(lines: Seq<Seq<char>>) -> bool {
    forall|i: int| 0 <= i < lines.len() ==> line_ok(lines, i)
}

/// Line `i` is the first that is not what the format asks for.
pub open spec fn first_bad(lines: Seq<Seq<char>>, i: int) -> bool {
    &&& 0 <= i < lines.len()
    &&& !line_ok(lines, i)
    &&& forall|j: int| 0 <= j < i ==> line_ok(lines, j)
}

/// The selected index that the lines give for the `status` list: what its
/// header holds, and 0 where the header is missing.
pub open spec fn saved_curr(lines: Seq<Seq<char>>, status: Status) -> nat {
    let at: int = match status {
        Status::Todo => 0,
        Status::Done => 1,
    };
    if at < lines.len() {
        match header_of(status, lines[at]) {
            Some(curr) => curr as nat,
            None => 0,
        }
    } else {
        0
    }
}

/// The texts of the `status` items among the lines after the headers and
/// before line `upto`, in the order of the lines.
pub open spec fn saved_items(lines: Seq<Seq<char>>, status: Status, upto: int) -> Seq<Seq<char>>
    decreases upto,
{
    if upto <= 2 {
        Seq::empty()
    } else {
        let before = saved_items(lines, status, upto - 1);
        match item_of(lines[upto - 1]) {
            Some((of, text)) => if of == status {
                before.push(text)
            } else {
                before
            },
            None => before,
        }
    }
}

/// The list of `status` that the lines describe. A selected index past the
/// end of the items counts as the last item.
pub open spec fn restored(lines: Seq<Seq<char>>, status: Status) -> ListView {
    ListView::clamped(saved_items(lines, status, lines.len() as int), saved_curr(lines, status))
}

/// The pending and the completed list that `text` describes, if all its
/// lines are what the format asks for.
pub open spec fn loaded(text: Seq<char>) -> Option<(ListView, ListView)> {
    let lines = lines_of(text);
    if all_ok(lines) {
        Some((restored(lines, Status::Todo), restored(lines, Status::Done)))
    } else {
        None
    }
}

/// Why a saved text was not loaded.
#[derive(Clone, Copy, Debug, PartialEq, Eq, Structural)]
pub enum LoadError {
    /// The line with this number, counted from 1, is not what the format
    /// asks for at its place.
    Malformed { line: usize },
}

impl LoadError {
    /// The report of the error for the file at `file_path`: the path, the
    /// number of the line, and what is wrong with it.
    pub open spec fn message_text(self, file_path: Seq<char>) -> Seq<char> {
        match self {
            LoadError::Malformed { line } => file_path + ":"@ + decimal(line as nat)
                + ": ERROR: ill-formed item line"@,
        }
    }

    /// Writes the report of the error for the file at `file_path`.
    pub fn message(&self, file_path: &str) -> (out: String)
        ensures
            out@ == self.message_text(file_path@),
    {
        match self {
            LoadError::Malformed { line } => {
                let mut out = String::from_str(file_path);
                out.append(":");
                push_decimal(&mut out, *line);
                out.append(": ERROR: ill-formed item line");
                out
            },
        }
    }
}

fn item_tag_text(status: Status) -> (tag: &'static str)
    ensures
        tag@ == item_tag(status),
{
    match status {
        Status::Todo => "TODO: ",
        Status::Done => "DONE: ",
    }
}

fn curr_tag_text(status: Status) -> (tag: &'static str)
    ensures
        tag@ == curr_tag(status),
{
    match status {
        Status::Todo => "TODO_CURR: ",
        Status::Done => "DONE_CURR: ",
    }
}

/// Reads an item line: its status and its text. `None` where the line
/// starts with neither `TODO: ` nor `DONE: `.
pub fn parse_item(line: &str) -> (res: Option<(Status, &str)>)
    ensures
        match res {
            Some((status, title)) => item_of(line@) == Some((status, title@)),
            None => item_of(line@) is None,
        },
{
    match after_prefix(line, item_tag_text(Status::Done)) {
        Some(title) => Some((Status::Done, title)),
        None => match after_prefix(line, item_tag_text(Status::Todo)) {
            Some(title) => Some((Status::Todo, title)),
            None => None,
        },
    }
}

/// Reads the header line of the `status` list: the selected index.
pub fn parse_header(status: Status, line: &str) -> (res: Option<usize>)
    ensures
        res == header_of(status, line@),
{
    match after_prefix(line, curr_tag_text(status)) {
        Some(number) => parse_number(number),
        None => None,
    }
}

/// Reads a saved text into the pending and the completed list. Fails at
/// the first line that is not what the format asks for, and then gives
/// nothing of what came before it.
pub fn parse_state(text: &str) -> (res: Result<(List, List), LoadError>)
    ensures
        match res {
            Ok((todo, done)) => todo.wf() && done.wf() && loaded(text@) == Some((todo@, done@)),
            Err(LoadError::Malformed { line }) => first_bad(lines_of(text@), line - 1),
        },
        res is Ok <==> all_ok(lines_of(text@)),
{
    let lines = split_lines(text);
    let ghost all = lines_of(text@);
    let n = lines.len();
    let mut todo_curr: usize = 0;
    let mut done_curr: usize = 0;
    let mut todo_items: Vec<String> = Vec::new();
    let mut done_items: Vec<String> = Vec::new();
    let mut i: usize = 0;
    assert(texts(todo_items@) =~= Seq::<Seq<char>>::empty());
    assert(texts(done_items@) =~= Seq::<Seq<char>>::empty());
    while i < n
        invariant
            i <= n,
            n == lines.len(),
            all == lines_of(text@),
            all == texts(lines@),
            forall|j: int| 0 <= j < i ==> line_ok(all, j),
            todo_curr == saved_curr(all.take(i as int), Status::Todo),
            done_curr == saved_curr(all.take(i as int), Status::Done),
            texts(todo_items@) == saved_items(all, Status::Todo, i as int),
            texts(done_items@) == saved_items(all, Status::Done, i as int),
        decreases n - i,
    {
        let line = lines[i].as_str();
        assert(line@ == all[i as int]);
        if i == 0 {
            match parse_header(Status::Todo, line) {
                Some(curr) => {
                    todo_curr = curr;
                },
                None => {
                    assert(!line_ok(all, i as int));
                    return Err(LoadError::Malformed { line: 1 });
                },
            }
        } else if i == 1 {
            match parse_header(Status::Done, line) {
                Some(curr) => {
                    done_curr = curr;
                },
                None => {
                    assert(!line_ok(all, i as int));
                    return Err(LoadError::Malformed { line: 2 });
                },
            }
        } else {
            match parse_item(line) {
                Some((Status::Todo, title)) => {
                    let owned = title.to_owned();
                    assert(texts(todo_items@.push(owned)) =~= texts(todo_items@).push(owned@));
                    todo_items.push(owned);
                },
                Some((Status::Done, title)) => {
                    let owned = title.to_owned();
                    assert(texts(done_items@.push(owned)) =~= texts(done_items@).push(owned@));
                    done_items.push(owned);
                },
                None => {
                    assert(!line_ok(all, i as int));
                    return Err(LoadError::Malformed { line: i + 1 });
                },
            }
        }
        i += 1;
    }
    assert(all.take(n as int) =~= all);
    Ok((List::restore(todo_items, todo_curr), List::restore(done_items, done_curr)))
}

/// Builds the two lists from what was saved, or from nothing: with no
/// saved text both lists are empty.
pub fn load_state(saved: Option<&str>) -> (res: Result<(List, List), LoadError>)
    ensures
        match (saved, res) {
            (None, Ok((todo, done))) => todo@ == ListView::empty() && done@ == ListView::empty()
                && todo.wf() && done.wf(),
            (Some(text), Ok((todo, done))) => todo.wf() && done.wf() && loaded(text@) == Some(
                (todo@, done@),
            ),
            (Some(text), Err(LoadError::Malformed { line })) => first_bad(
                lines_of(text@),
                line - 1,
            ),
            (None, Err(_)) => false,
        },
        res is Ok <==> (saved matches Some(text) ==> all_ok(lines_of(text@))),
{
    match saved {
        Some(text) => parse_state(text),
        None => Ok((List::new(), List::new())),
    }
}

/// The header line of the `status` list, with its newline.
pub open spec fn header_line(status: Status, curr: nat) -> Seq<char> {
    curr_tag(status) + decimal(curr) + seq!['\n']
}

/// The line of one item, with its newline.
pub open spec fn item_line(status: Status, item: Seq<char>) -> Seq<char> {
    item_tag(status) + item + seq!['\n']
}

/// The lines of `items`, one after the other.
pub open spec fn item_lines(status: Status, items: Seq<Seq<char>>) -> Seq<char>
    decreases items.len(),
{
    if items.len() == 0 {
        Seq::empty()
    } else {
        item_lines(status, items.drop_last()) + item_line(status, items.last())
    }
}

/// The saved text of two lists: the two headers, then the pending items,
/// then the completed items.
pub open spec fn saved_text(todo: ListView, done: ListView) -> Seq<char> {
    header_line(Status::Todo, todo.curr) + header_line(Status::Done, done.curr) + item_lines(
        Status::Todo,
        todo.items,
    ) + item_lines(Status::Done, done.items)
}

fn push_header(out: &mut String, status: Status, curr: usize)
    ensures
        final(out)@ == old(out)@ + header_line(status, curr as nat),
{
    out.append(curr_tag_text(status));
    push_decimal(out, curr);
    out.push('\n');
    assert(out@ =~= old(out)@ + header_line(status, curr as nat));
}

fn push_items(out: &mut String, status: Status, items: &Vec<String>)
    ensures
        final(out)@ == old(out)@ + item_lines(status, texts(items@)),
{
    let n = items.len();
    let ghost all = texts(items@);
    let mut i: usize = 0;
    assert(out@ =~= old(out)@ + item_lines(status, all.take(0)));
    while i < n
        invariant
            i <= n,
            n == items.len(),
            all == texts(items@),
            out@ == old(out)@ + item_lines(status, all.take(i as int)),
        decreases n - i,
    {
        let ghost before = out@;
        out.append(item_tag_text(status));
        out.append(items[i].as_str());
        out.push('\n');
        proof {
            let upto = all.take(i + 1);
            assert(upto.drop_last() =~= all.take(i as int));
            assert(upto.last() == items@[i as int]@);
            assert(out@ =~= before + item_line(status, upto.last()));
            assert(out@ =~= old(out)@ + item_lines(status, upto));
        }
        i += 1;
    }
    assert(all.take(n as int) =~= all);
}

/// Writes the two lists as text: the two headers, then every pending item
/// in order, then every completed item in order.
pub fn save_state(todo_list: &List, done_list: &List) -> (out: String)
    ensures
        out@ == saved_text(todo_list@, done_list@),
{
    let mut out = String::new();
    push_header(&mut out, Status::Todo, todo_list.curr());
    push_header(&mut out, Status::Done, done_list.curr());
    push_items(&mut out, Status::Todo, todo_list.items());
    push_items(&mut out, Status::Done, done_list.items());
    assert(out@ =~= saved_text(todo_list@, done_list@));
    out
}

/// The lines that `items` are saved as, without their newlines.
pub open spec fn tagged(status: Status, items: Seq<Seq<char>>) -> Seq<Seq<char>> {
    Seq::new(items.len(), |i: int| item_tag(status) + items[i])
}

/// The four tags: their lengths, their first characters, and that none
/// holds a newline.
proof fn lemma_tags()
    ensures
        item_tag(Status::Todo).len() == 6,
        item_tag(Status::Done).len() == 6,
        item_tag(Status::Todo)[0] == 'T',
        item_tag(Status::Done)[0] == 'D',
        curr_tag(Status::Todo).len() == 11,
        curr_tag(Status::Done).len() == 11,
        no_newline(item_tag(Status::Todo)),
        no_newline(item_tag(Status::Done)),
        no_newline(curr_tag(Status::Todo)),
        no_newline(curr_tag(Status::Done)),
{
    reveal_strlit("TODO: ");
    reveal_strlit("DONE: ");
    reveal_strlit("TODO_CURR: ");
    reveal_strlit("DONE_CURR: ");
}

/// An item line reads back as the status and text it was written for.
proof fn lemma_item_of_tagged(status: Status, text: Seq<char>)
    ensures
        item_of(item_tag(status) + text) == Some((status, text)),
{
    lemma_tags();
    let line = item_tag(status) + text;
    assert(line.subrange(0, 6) =~= item_tag(status));
    assert(line.skip(6) =~= text);
    let other = item_tag(status.other());
    assert(other.is_prefix_of(line) ==> other[0] == line.subrange(0, 6)[0]);
}

/// A header line reads back as the index it was written for.
proof fn lemma_header_of_written(status: Status, curr: nat)
    requires
        curr <= usize::MAX,
    ensures
        header_of(status, curr_tag(status) + decimal(curr)) == Some(curr as usize),
        no_newline(curr_tag(status) + decimal(curr)),
{
    lemma_tags();
    lemma_decimal_round_trip(curr);
    let line = curr_tag(status) + decimal(curr);
    assert(line.subrange(0, 11) =~= curr_tag(status));
    assert(line.skip(11) =~= decimal(curr));
    assert forall|i: int| 0 <= i < line.len() implies #[trigger] line[i] != '\n' by {
        if i >= 11 {
            assert(is_digit(decimal(curr)[i - 11]));
        } else {
            assert(curr_tag(status)[i] != '\n');
        }
    }
}

/// The lines of saved items, followed by more text, are the items with
/// their tags, followed by the lines of that text.
proof fn lemma_lines_of_item_lines(status: Status, items: Seq<Seq<char>>, rest: Seq<char>)
    requires
        single_lines(items),
    ensures
        lines_of(item_lines(status, items) + rest) == tagged(status, items) + lines_of(rest),
    decreases items.len(),
{
    if items.len() == 0 {
        assert(item_lines(status, items) + rest =~= rest);
        assert(tagged(status, items) + lines_of(rest) =~= lines_of(rest));
    } else {
        lemma_tags();
        let front = items.drop_last();
        let line = item_tag(status) + items.last();
        let tail = line + seq!['\n'] + rest;
        assert(no_newline(items.last()));
        assert forall|i: int| 0 <= i < line.len() implies #[trigger] line[i] != '\n' by {
            if i >= 6 {
                assert(items.last()[i - 6] != '\n');
            } else {
                assert(item_tag(status)[i] != '\n');
            }
        }
        assert(item_lines(status, items) + rest =~= item_lines(status, front) + tail);
        lemma_lines_of_item_lines(status, front, tail);
        lemma_lines_of_line_then(line, rest);
        assert(tagged(status, front) + (seq![line] + lines_of(rest)) =~= tagged(status, items)
            + lines_of(rest));
    }
}

/// The lines that two lists are saved as.
pub open spec fn saved_lines(todo: ListView, done: ListView) -> Seq<Seq<char>> {
    seq![
        curr_tag(Status::Todo) + decimal(todo.curr),
        curr_tag(Status::Done) + decimal(done.curr),
    ] + tagged(Status::Todo, todo.items) + tagged(Status::Done, done.items)
}

/// The saved text of two lists splits into their saved lines.
proof fn lemma_lines_of_saved_text(todo: ListView, done: ListView)
    requires
        todo.curr <= usize::MAX,
        done.curr <= usize::MAX,
        single_lines(todo.items),
        single_lines(done.items),
    ensures
        lines_of(saved_text(todo, done)) == saved_lines(todo, done),
{
    let first = curr_tag(Status::Todo) + decimal(todo.curr);
    let second = curr_tag(Status::Done) + decimal(done.curr);
    let pending = item_lines(Status::Todo, todo.items);
    let completed = item_lines(Status::Done, done.items);
    let none = Seq::<char>::empty();
    lemma_header_of_written(Status::Todo, todo.curr);
    lemma_header_of_written(Status::Done, done.curr);
    assert(saved_text(todo, done) =~= first + seq!['\n'] + (second + seq!['\n'] + (pending
        + completed)));
    lemma_lines_of_line_then(first, second + seq!['\n'] + (pending + completed));
    lemma_lines_of_line_then(second, pending + completed);
    lemma_lines_of_item_lines(Status::Todo, todo.items, completed);
    assert(completed =~= completed + none);
    lemma_lines_of_item_lines(Status::Done, done.items, none);
    assert(lines_of(none) =~= Seq::<Seq<char>>::empty());
    assert(lines_of(saved_text(todo, done)) =~= saved_lines(todo, done));
}

/// Among the saved lines of two lists, the items found up to a line are the
/// items written up to that line.
proof fn lemma_saved_items_of_saved_lines(todo: ListView, done: ListView, upto: int)
    requires
        2 <= upto <= saved_lines(todo, done).len(),
    ensures
        saved_items(saved_lines(todo, done), Status::Todo, upto) == todo.items.take(
            if upto - 2 <= todo.items.len() {
                upto - 2
            } else {
                todo.items.len() as int
            },
        ),
        saved_items(saved_lines(todo, done), Status::Done, upto) == done.items.take(
            if upto - 2 <= todo.items.len() {
                0
            } else {
                upto - 2 - todo.items.len()
            },
        ),
    decreases upto,
{
    let lines = saved_lines(todo, done);
    let pending = todo.items.len() as int;
    if upto == 2 {
        assert(todo.items.take(0) =~= Seq::<Seq<char>>::empty());
        assert(done.items.take(0) =~= Seq::<Seq<char>>::empty());
    } else {
        lemma_saved_items_of_saved_lines(todo, done, upto - 1);
        let at = upto - 3;
        if at < pending {
            assert(lines[upto - 1] == item_tag(Status::Todo) + todo.items[at]);
            lemma_item_of_tagged(Status::Todo, todo.items[at]);
            assert(todo.items.take(at + 1) =~= todo.items.take(at).push(todo.items[at]));
        } else {
            let k = at - pending;
            assert(lines[upto - 1] == item_tag(Status::Done) + done.items[k]);
            lemma_item_of_tagged(Status::Done, done.items[k]);
            assert(done.items.take(k + 1) =~= done.items.take(k).push(done.items[k]));
        }
    }
}

/// Saving two lists and loading the text gives the same two lists back:
/// the same items in the same order and the same selected indices. This
/// holds for lists whose items hold no newline; an item with a newline is
/// saved as two lines.
pub proof fn lemma_save_load_round_trip(todo: List, done: List)
    requires
        todo.wf(),
        done.wf(),
        single_lines(todo@.items),
        single_lines(done@.items),
    ensures
        loaded(saved_text(todo@, done@)) == Some((todo@, done@)),
{
    todo.lemma_fits();
    done.lemma_fits();
    let a = todo@;
    let b = done@;
    let lines = saved_lines(a, b);
    lemma_lines_of_saved_text(a, b);
    lemma_header_of_written(Status::Todo, a.curr);
    lemma_header_of_written(Status::Done, b.curr);
    assert forall|i: int| 0 <= i < lines.len() implies line_ok(lines, i) by {
        if i >= 2 {
            if i - 2 < a.items.len() {
                lemma_item_of_tagged(Status::Todo, a.items[i - 2]);
            } else {
                lemma_item_of_tagged(Status::Done, b.items[i - 2 - a.items.len()]);
            }
        }
    }
    lemma_saved_items_of_saved_lines(a, b, lines.len() as int);
    assert(a.items.take(a.items.len() as int) =~= a.items);
    assert(b.items.take(b.items.len() as int) =~= b.items);
}

} // verus!
