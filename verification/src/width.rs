//! The width of a line as the `prettytable` crate takes it in its
//! `display_width`: the columns that the `unicode-width` crate counts, less
//! the characters of colour escape sequences. Where a line has fewer columns
//! than such characters, `prettytable` cannot measure it and stops.

use crate::lines::{
    line_end, line_end_is_first_feed, line_views, lines_hold_no_feed, no_feed, split_lines,
    text_lines,
};
use crate::text::plain_text;
use vstd::prelude::*;
use vstd::string::*;

verus! {

/// The columns that `UnicodeWidthStr::width` of the `unicode-width` crate
/// counts for a line.
pub uninterp spec fn line_columns(line: Seq<char>) -> nat;

/// The columns that `UnicodeWidthChar::width` of the `unicode-width` crate
/// counts for one character; `None` for a control character.
pub uninterp spec fn char_columns(c: char) -> Option<nat>;

/// Calls `UnicodeWidthStr::width` of the `unicode-width` crate. The contract
/// gives the result its name, and claims of the crate that in a plain line
/// without line feed every character counts for one column.
#[verifier::external_body]
fn line_columns_of(line: &str) -> (columns: usize)
    ensures
        columns == line_columns(line@),
        plain_text(line@) && no_feed(line@) ==> columns == line@.len(),
{
    unicode_width::UnicodeWidthStr::width(line)
}

/// Calls `UnicodeWidthChar::width` of the `unicode-width` crate. The contract
/// only gives the result its name.
#[verifier::external_body]
fn char_columns_of(c: char) -> (columns: Option<usize>)
    ensures
        match columns {
            Some(n) => char_columns(c) == Some(n as nat),
            None => char_columns(c) is None,
        },
{
    unicode_width::UnicodeWidthChar::width(c)
}

/// Where a character stands with regard to colour escape sequences.
#[derive(Clone, Copy, Debug, PartialEq, Eq, Structural)]
pub enum Escape {
    /// In no escape sequence.
    Outside,
    /// Directly behind an escape character.
    Started,
    /// Behind an escape character and `[`, with no `m` since.
    Inside,
}

/// Where the character behind `c` stands, if `c` stands at `state`.
pub open spec fn escape_after(state: Escape, c: char) -> Escape {
    match state {
        Escape::Outside => if c == '\x1b' {
            Escape::Started
        } else {
            Escape::Outside
        },
        Escape::Started => if c == '[' {
            Escape::Inside
        } else {
            Escape::Outside
        },
        Escape::Inside => if c == 'm' {
            Escape::Outside
        } else {
            Escape::Inside
        },
    }
}

/// Whether `c`, standing at `state`, belongs to an escape sequence: the `[`
/// behind an escape character and whatever follows it, up to the next `m`.
pub open spec fn in_escape(state: Escape, c: char) -> bool {
    state == Escape::Inside || (state == Escape::Started && c == '[')
}

/// Whether `c` counts for any column.
pub open spec fn takes_room(c: char) -> bool {
    char_columns(c) matches Some(n) && n > 0
}

/// The characters of `line`, read from `state` on, that belong to an escape
/// sequence and count for a column.
pub open spec fn hidden_from(line: Seq<char>, state: Escape) -> nat
    decreases line.len(),
{
    if line.len() == 0 {
        0
    } else {
        hidden_from(line.skip(1), escape_after(state, line[0])) + if in_escape(state, line[0])
            && takes_room(line[0]) {
            1nat
        } else {
            0nat
        }
    }
}

/// The characters of `line` that belong to an escape sequence and count for
/// a column.
pub open spec fn hidden(line: Seq<char>) -> nat {
    hidden_from(line, Escape::Outside)
}

/// Whether the table can measure `line`: whether its columns are at least as
/// many as its hidden characters.
pub open spec fn fits(line: Seq<char>) -> bool {
    line_columns(line) >= hidden(line)
}

/// The width that the table gives a line that it can measure: its columns
/// less its hidden characters.
pub open spec fn shown_width(line: Seq<char>) -> nat {
    (line_columns(line) - hidden(line)) as nat
}

/// Whether the table can measure every line of `text`.
pub open spec fn lays_out(text: Seq<char>) -> bool {
    forall|i: int| 0 <= i < text_lines(text).len() ==> fits(#[trigger] text_lines(text)[i])
}

/// No more characters are hidden than there are.
pub proof fn hidden_bound(line: Seq<char>, state: Escape)
    ensures
        hidden_from(line, state) <= line.len(),
    decreases line.len(),
{
    if line.len() > 0 {
        hidden_bound(line.skip(1), escape_after(state, line[0]));
    }
}

/// The lines of a plain text are plain.
pub proof fn lines_stay_plain(s: Seq<char>)
    requires
        plain_text(s),
    ensures
        forall|i: int| 0 <= i < text_lines(s).len() ==> plain_text(#[trigger] text_lines(s)[i]),
    decreases s.len(),
{
    if s.len() > 0 {
        line_end_is_first_feed(s);
        let k = line_end(s);
        if k < s.len() {
            let rest = s.skip(k + 1);
            lines_stay_plain(rest);
            assert forall|i: int| 0 <= i < text_lines(s).len() implies plain_text(
                #[trigger] text_lines(s)[i],
            ) by {
                if i > 0 {
                    assert(text_lines(s)[i] == text_lines(rest)[i - 1]);
                }
            }
        }
    }
}

/// Counts the characters of `line` that belong to an escape sequence and
/// count for a column.
pub fn count_hidden(line: &str) -> (count: usize)
    ensures
        count == hidden(line@),
{
    let mut count: usize = 0;
    let mut state = Escape::Outside;
    let total = line.unicode_len();
    let it = line.chars();
    assert(line@.skip(0) =~= line@);
    for c in iter: it
        invariant
            iter.seq() == line@,
            line@.len() == total,
            count <= iter.index(),
            count + hidden_from(line@.skip(iter.index()), state) == hidden(line@),
    {
        assert(line@.skip(iter.index()).skip(1) =~= line@.skip(iter.index() + 1));
        let inside = match state {
            Escape::Outside => false,
            Escape::Started => c == '[',
            Escape::Inside => true,
        };
        if inside {
            match char_columns_of(c) {
                Some(n) => {
                    if n > 0 {
                        count += 1;
                    }
                },
                None => {},
            }
        }
        state = match state {
            Escape::Outside => if c == '\x1b' {
                Escape::Started
            } else {
                Escape::Outside
            },
            Escape::Started => if c == '[' {
                Escape::Inside
            } else {
                Escape::Outside
            },
            Escape::Inside => if c == 'm' {
                Escape::Outside
            } else {
                Escape::Inside
            },
        };
    }
    count
}

/// The width that the table gives `line`, or `None` where the table cannot
/// measure it. A plain line without line feed can be measured.
pub fn shown_width_of(line: &str) -> (width: Option<usize>)
    ensures
        match width {
            Some(w) => fits(line@) && w == shown_width(line@),
            None => !fits(line@),
        },
        plain_text(line@) && no_feed(line@) ==> width is Some,
{
    let columns = line_columns_of(line);
    let count = count_hidden(line);
    proof {
        hidden_bound(line@, Escape::Outside);
    }
    if columns >= count {
        Some(columns - count)
    } else {
        None
    }
}

/// Whether the table can measure every line of `text`. It can where `text`
/// is plain.
pub fn can_lay_out(text: &str) -> (fit: bool)
    ensures
        fit == lays_out(text@),
        plain_text(text@) ==> fit,
{
    let lines = split_lines(text);
    proof {
        lines_hold_no_feed(text@);
        if plain_text(text@) {
            lines_stay_plain(text@);
        }
    }
    let mut i: usize = 0;
    while i < lines.len()
        invariant
            i <= lines.len(),
            line_views(lines@) == text_lines(text@),
            forall|j: int| 0 <= j < i ==> fits(#[trigger] text_lines(text@)[j]),
            forall|j: int|
                0 <= j < text_lines(text@).len() ==> no_feed(#[trigger] text_lines(text@)[j]),
            plain_text(text@) ==> forall|j: int|
                0 <= j < text_lines(text@).len() ==> plain_text(#[trigger] text_lines(text@)[j]),
        decreases lines.len() - i,
    {
        assert(line_views(lines@)[i as int] == lines@[i as int]@);
        if shown_width_of(lines[i].as_str()).is_none() {
            return false;
        }
        i += 1;
    }
    true
}

} // verus!
