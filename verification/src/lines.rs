//! Lines of a text: where a text breaks, and what each line holds.
//!
//! A line ends at a line feed; a carriage return directly before that line
//! feed belongs to the line ending. What follows the last line feed is a line
//! only if it is not empty.

use vstd::prelude::*;
use vstd::string::*;

verus! {

/// No character of `s` is a line feed.
pub open spec fn no_feed(s: Seq<char>) -> bool {
    forall|i: int| 0 <= i < s.len() ==> s[i] != '\n'
}

/// The index of the first line feed of `s`; the length of `s` if it has none.
pub open spec fn line_end(s: Seq<char>) -> int
    decreases s.len(),
{
    if s.len() == 0 || s[0] == '\n' {
        0
    } else {
        1 + line_end(s.skip(1))
    }
}

/// `line` without the carriage return at its end, if it has one.
pub open spec fn strip_cr(line: Seq<char>) -> Seq<char> {
    if line.len() > 0 && line.last() == '\r' {
        line.drop_last()
    } else {
        line
    }
}

/// The lines of `s`, without their line endings.
pub open spec fn text_lines(s: Seq<char>) -> Seq<Seq<char>>
    decreases s.len(),
{
    if s.len() == 0 {
        Seq::empty()
    } else {
        let k = line_end(s);
        if 0 <= k < s.len() {
            seq![strip_cr(s.take(k))] + text_lines(s.skip(k + 1))
        } else {
            seq![s]
        }
    }
}

/// Every line followed by a line feed, one after the other.
pub open spec fn unlines(lines: Seq<Seq<char>>) -> Seq<char>
    decreases lines.len(),
{
    if lines.len() == 0 {
        Seq::empty()
    } else {
        unlines(lines.drop_last()) + lines.last() + seq!['\n']
    }
}

/// The texts that a sequence of strings holds.
pub open spec fn line_views(lines: Seq<String>) -> Seq<Seq<char>> {
    Seq::new(lines.len(), |i: int| lines[i]@)
}

/// `line_end` lies within the text, on its first line feed.
pub proof fn line_end_is_first_feed(s: Seq<char>)
    ensures
        0 <= line_end(s) <= s.len(),
        no_feed(s.take(line_end(s))),
        line_end(s) < s.len() ==> s[line_end(s)] == '\n',
        no_feed(s) <==> line_end(s) == s.len(),
    decreases s.len(),
{
    if s.len() > 0 && s[0] != '\n' {
        let rest = s.skip(1);
        line_end_is_first_feed(rest);
        let k = line_end(rest);
        let front = s.take(k + 1);
        assert forall|i: int| 0 <= i < front.len() implies front[i] != '\n' by {
            if i > 0 {
                assert(front[i] == rest.take(k)[i - 1]);
            }
        }
        if k == rest.len() {
            assert(front =~= s);
        }
    }
}

/// Behind a stretch without line feed that ends in one, the first line ends
/// where the stretch does.
pub proof fn line_end_after(head: Seq<char>, rest: Seq<char>)
    requires
        no_feed(head),
    ensures
        line_end(head + seq!['\n'] + rest) == head.len(),
    decreases head.len(),
{
    let s = head + seq!['\n'] + rest;
    if head.len() > 0 {
        assert(s.skip(1) =~= head.skip(1) + seq!['\n'] + rest);
        line_end_after(head.skip(1), rest);
    }
}

/// A stretch without line feed that ends in one is the first line, and the
/// lines of what follows come after it.
pub proof fn lines_after_first(head: Seq<char>, rest: Seq<char>)
    requires
        no_feed(head),
    ensures
        text_lines(head + seq!['\n'] + rest) == seq![strip_cr(head)] + text_lines(rest),
{
    let s = head + seq!['\n'] + rest;
    line_end_after(head, rest);
    assert(s.take(head.len() as int) =~= head);
    assert(s.skip(head.len() as int + 1) =~= rest);
}

/// A text without line feed is one line, or none if it is empty.
pub proof fn lines_of_one(s: Seq<char>)
    requires
        no_feed(s),
    ensures
        text_lines(s) == if s.len() == 0 {
            Seq::<Seq<char>>::empty()
        } else {
            seq![s]
        },
{
    line_end_is_first_feed(s);
}

/// No line holds a line feed.
pub proof fn lines_hold_no_feed(s: Seq<char>)
    ensures
        forall|i: int| 0 <= i < text_lines(s).len() ==> no_feed(#[trigger] text_lines(s)[i]),
    decreases s.len(),
{
    if s.len() > 0 {
        line_end_is_first_feed(s);
        let k = line_end(s);
        if k < s.len() {
            let rest = s.skip(k + 1);
            lines_hold_no_feed(rest);
            assert forall|i: int| 0 <= i < text_lines(s).len() implies no_feed(
                #[trigger] text_lines(s)[i],
            ) by {
                if i > 0 {
                    assert(text_lines(s)[i] == text_lines(rest)[i - 1]);
                }
            }
        }
    }
}

/// A line feed behind a text that does not end in one ends the text's last
/// line: the lines of what follows come after the text's own, of which the
/// last loses a carriage return at its end.
pub proof fn lines_after_break(text: Seq<char>, rest: Seq<char>)
    requires
        text.len() > 0,
        text.last() != '\n',
    ensures
        text_lines(text).len() >= 1,
        text_lines(text + seq!['\n'] + rest) == text_lines(text).drop_last().push(
            strip_cr(text_lines(text).last()),
        ) + text_lines(rest),
    decreases text.len(),
{
    line_end_is_first_feed(text);
    let k = line_end(text);
    let whole = text + seq!['\n'] + rest;
    if k == text.len() {
        lines_after_first(text, rest);
        lines_of_one(text);
    } else {
        let head = text.take(k);
        let tail = text.skip(k + 1);
        lines_after_break(tail, rest);
        assert(whole =~= head + seq!['\n'] + (tail + seq!['\n'] + rest));
        lines_after_first(head, tail + seq!['\n'] + rest);
        lines_after_first(head, tail);
    }
}

/// Written out, a line in front of others stands in front of them, with its
/// line feed.
pub proof fn unlines_prepend(first: Seq<char>, rest: Seq<Seq<char>>)
    ensures
        unlines(seq![first] + rest) == first + seq!['\n'] + unlines(rest),
    decreases rest.len(),
{
    let all = seq![first] + rest;
    if rest.len() == 0 {
        assert(all.drop_last() =~= rest);
    } else {
        assert(all.drop_last() =~= seq![first] + rest.drop_last());
        unlines_prepend(first, rest.drop_last());
    }
}

/// What is being read of the current line: the characters placed so far, and
/// a carriage return if one is held back.
pub open spec fn pending(placed: Seq<char>, held: bool) -> Seq<char> {
    if held {
        placed.push('\r')
    } else {
        placed
    }
}

/// Splits a text into its lines.
pub fn split_lines(s: &str) -> (lines: Vec<String>)
    ensures
        line_views(lines@) == text_lines(s@),
{
    let mut lines: Vec<String> = Vec::new();
    let mut cur = String::new();
    let mut held = false;
    let it = s.chars();
    assert(pending(cur@, held) + s@.skip(0) =~= s@);
    for c in iter: it
        invariant
            iter.seq() == s@,
            no_feed(pending(cur@, held)),
            !held ==> cur@.len() == 0 || cur@.last() != '\r',
            line_views(lines@) + text_lines(pending(cur@, held) + s@.skip(iter.index()))
                == text_lines(s@),
    {
        let ghost before = pending(cur@, held);
        let ghost rest = s@.skip(iter.index() + 1);
        if c == '\n' {
            proof {
                lines_after_first(before, rest);
                assert(before + s@.skip(iter.index()) =~= before + seq!['\n'] + rest);
                assert(strip_cr(before) =~= cur@);
            }
            lines.push(cur);
            cur = String::new();
            held = false;
        } else if c == '\r' {
            if held {
                cur.push('\r');
            }
            held = true;
            assert(pending(cur@, held) + rest =~= before + s@.skip(iter.index()));
        } else {
            if held {
                cur.push('\r');
                held = false;
            }
            cur.push(c);
            assert(pending(cur@, held) + rest =~= before + s@.skip(iter.index()));
        }
    }
    proof {
        lines_of_one(pending(cur@, held));
    }
    if held {
        cur.push('\r');
    }
    if !cur.as_str().is_empty() {
        lines.push(cur);
    }
    lines
}

/// Writes every line out, each followed by a line feed.
pub fn join_lines(lines: &Vec<String>) -> (text: String)
    ensures
        text@ == unlines(line_views(lines@)),
{
    let mut text = String::new();
    let mut i: usize = 0;
    while i < lines.len()
        invariant
            i <= lines.len(),
            text@ == unlines(line_views(lines@.take(i as int))),
        decreases lines.len() - i,
    {
        let ghost before = line_views(lines@.take(i as int));
        text.append(lines[i].as_str());
        text.push('\n');
        i += 1;
        proof {
            let now = line_views(lines@.take(i as int));
            assert(now.drop_last() =~= before);
        }
    }
    assert(lines@.take(i as int) =~= lines@);
    text
}

} // verus!
