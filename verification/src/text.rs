//! Moving between strings and vectors of characters.
//!
//! Positions in this crate count characters, not bytes, so text is taken
//! apart as a `Vec<char>` and put together again as a `String`.

use vstd::prelude::*;

verus! {

/// `String::push` of the standard library: the string afterwards is the
/// string before with `ch` added at its end.
pub assume_specification[ String::push ](s: &mut String, ch: char)
    ensures
        final(s)@ == old(s)@.push(ch),
;

/// What `str::trim` of the standard library leaves of a text: the text
/// without the white space at its two ends.
pub uninterp spec fn trimmed(text: Seq<char>) -> Seq<char>;

/// `str::trim` of the standard library: the result depends on the
/// characters of the text alone.
pub assume_specification[ str::trim ](text: &str) -> (rest: &str)
    ensures
        rest@ == trimmed(text@),
;

/// Nothing but white space, or nothing at all.
pub open spec fn blank(text: Seq<char>) -> bool {
    trimmed(text).len() == 0
}

/// Whether `text` is empty once the white space at its ends is gone.
pub fn is_blank(text: &str) -> (b: bool)
    ensures
        b == blank(text@),
{
    text.trim().is_empty()
}

/// The characters of `s`, in order.
pub fn chars_of(s: &str) -> (out: Vec<char>)
    ensures
        out@ == s@,
{
    let mut out: Vec<char> = Vec::new();
    for c in it: s.chars()
        invariant
            it.seq() == s@,
            out@ == it.seq().take(it.index() as int),
    {
        out.push(c);
    }
    out
}

/// The string made of the characters `chars[from..to]`.
pub fn string_of(chars: &Vec<char>, from: usize, to: usize) -> (out: String)
    requires
        from <= to <= chars.len(),
    ensures
        out@ == chars@.subrange(from as int, to as int),
{
    let mut out = String::new();
    let mut i: usize = from;
    while i < to
        invariant
            from <= i <= to <= chars.len(),
            out@ == chars@.subrange(from as int, i as int),
        decreases to - i,
    {
        out.push(chars[i]);
        i += 1;
    }
    out
}

/// What follows `prefix` in `line`, if `line` starts with `prefix`.
pub fn after_prefix<'a>(line: &'a str, prefix: &str) -> (rest: Option<&'a str>)
    ensures
        match rest {
            Some(rest) => prefix@.is_prefix_of(line@) && rest@ == line@.skip(prefix@.len() as int),
            None => !prefix@.is_prefix_of(line@),
        },
{
    let whole = chars_of(line);
    let start = chars_of(prefix);
    let n = start.len();
    if n > whole.len() {
        return None;
    }
    let mut i: usize = 0;
    while i < n
        invariant
            i <= n,
            n == start.len(),
            n <= whole.len(),
            whole@ == line@,
            start@ == prefix@,
            forall|j: int| 0 <= j < i ==> whole[j] == start[j],
        decreases n - i,
    {
        if whole[i] != start[i] {
            assert(line@.subrange(0, n as int)[i as int] != prefix@[i as int]);
            return None;
        }
        i += 1;
    }
    assert(prefix@ =~= line@.subrange(0, n as int));
    Some(line.substring_char(n, whole.len()))
}

} // verus!
