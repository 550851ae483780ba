//! Logo templates: text in which four placeholders stand for tones.

use crate::color::{add_color, AnsiColor};
use crate::lines::{
    line_end, line_end_is_first_feed, lines_after_first, lines_of_one, no_feed, text_lines,
};
use crate::text::{chars_of, plain_concat, plain_text};
use vstd::prelude::*;
use vstd::string::*;

verus! {

/// `s` with every occurrence of `from` replaced by `to`, found from the left
/// and without overlap. An empty `from` occurs nowhere.
pub open spec fn replace_all(s: Seq<char>, from: Seq<char>, to: Seq<char>) -> Seq<char>
    decreases s.len(),
{
    if s.len() == 0 || from.len() == 0 {
        s
    } else if from.is_prefix_of(s) {
        to + replace_all(s.skip(from.len() as int), from, to)
    } else {
        seq![s[0]] + replace_all(s.skip(1), from, to)
    }
}

/// `c` does not occur in `s`.
pub open spec fn lacks(s: Seq<char>, c: char) -> bool {
    forall|i: int| 0 <= i < s.len() ==> s[i] != c
}

/// The placeholders of a template.
#[derive(Clone, Copy, Debug, PartialEq, Eq, Structural)]
pub enum Placeholder {
    Red,
    Yellow,
    Purple,
    White,
}

impl Placeholder {
    /// The placeholder as it is written in a template.
    pub open spec fn token(self) -> Seq<char> {
        match self {
            Placeholder::Red => "$RED"@,
            Placeholder::Yellow => "$YELLOW"@,
            Placeholder::Purple => "$PURPLE"@,
            Placeholder::White => "$WHITE"@,
        }
    }

    /// The tone that the placeholder stands for.
    pub open spec fn tone(self) -> AnsiColor {
        match self {
            Placeholder::Red => AnsiColor::Red,
            Placeholder::Yellow => AnsiColor::Yellow,
            Placeholder::Purple => AnsiColor::Purple,
            Placeholder::White => AnsiColor::White,
        }
    }

    /// The placeholder as it is written in a template.
    pub fn text(&self) -> (token: &'static str)
        ensures
            token@ == self.token(),
    {
        match self {
            Placeholder::Red => "$RED",
            Placeholder::Yellow => "$YELLOW",
            Placeholder::Purple => "$PURPLE",
            Placeholder::White => "$WHITE",
        }
    }

    /// The tone that the placeholder stands for.
    pub fn color(&self) -> (tone: AnsiColor)
        ensures
            tone == self.tone(),
    {
        match self {
            Placeholder::Red => AnsiColor::Red,
            Placeholder::Yellow => AnsiColor::Yellow,
            Placeholder::Purple => AnsiColor::Purple,
            Placeholder::White => AnsiColor::White,
        }
    }
}

/// `s` with one placeholder replaced by the escape sequence of its tone.
pub open spec fn fill(s: Seq<char>, p: Placeholder) -> Seq<char> {
    replace_all(s, p.token(), p.tone().escape())
}

/// A template with all four placeholders replaced, one after the other.
pub open spec fn substituted(template: Seq<char>) -> Seq<char> {
    fill(
        fill(fill(fill(template, Placeholder::Red), Placeholder::Yellow), Placeholder::Purple),
        Placeholder::White,
    )
}

/// Ahead of a stretch in which the first character of `from` does not occur,
/// nothing is replaced.
pub proof fn replace_passes(head: Seq<char>, rest: Seq<char>, from: Seq<char>, to: Seq<char>)
    requires
        from.len() > 0,
        lacks(head, from[0]),
    ensures
        replace_all(head + rest, from, to) == head + replace_all(rest, from, to),
    decreases head.len(),
{
    let s = head + rest;
    if head.len() > 0 {
        assert(s.skip(1) =~= head.skip(1) + rest);
        replace_passes(head.skip(1), rest, from, to);
    }
}

/// Where a text starts with `from`, it starts with `to` once replaced.
pub proof fn replace_hits(rest: Seq<char>, from: Seq<char>, to: Seq<char>)
    requires
        from.len() > 0,
    ensures
        replace_all(from + rest, from, to) == to + replace_all(rest, from, to),
{
    let s = from + rest;
    assert(s.skip(from.len() as int) =~= rest);
}

/// Replacing stops at a character that does not occur in `from`: what
/// stands before it and what stands behind it are replaced each on its own.
pub proof fn replace_splits(
    head: Seq<char>,
    c: char,
    rest: Seq<char>,
    from: Seq<char>,
    to: Seq<char>,
)
    requires
        lacks(from, c),
    ensures
        replace_all(head + seq![c] + rest, from, to) == replace_all(head, from, to) + seq![c]
            + replace_all(rest, from, to),
    decreases head.len(),
{
    let whole = head + seq![c] + rest;
    if from.len() > 0 {
        let m = from.len() as int;
        if from.is_prefix_of(whole) && m > head.len() {
            assert(whole.subrange(0, m)[head.len() as int] == c);
        }
        if head.len() == 0 {
            assert(whole.skip(1) =~= rest);
        } else {
            let done: int = if from.is_prefix_of(whole) {
                m
            } else {
                1
            };
            assert(whole.skip(done) =~= head.skip(done) + seq![c] + rest);
            replace_splits(head.skip(done), c, rest, from, to);
        }
    }
}

/// Replacing by a text without line feed brings no line feed into a text
/// that has none.
pub proof fn replace_keeps_feedless(s: Seq<char>, from: Seq<char>, to: Seq<char>)
    requires
        no_feed(s),
        no_feed(to),
    ensures
        no_feed(replace_all(s, from, to)),
    decreases s.len(),
{
    if s.len() > 0 && from.len() > 0 {
        let done: int = if from.is_prefix_of(s) {
            from.len() as int
        } else {
            1
        };
        let rest = s.skip(done);
        replace_keeps_feedless(rest, from, to);
    }
}

/// Replacing a text without line feed by a text without line feed that is
/// not empty keeps the number of lines.
pub proof fn replace_keeps_line_count(s: Seq<char>, from: Seq<char>, to: Seq<char>)
    requires
        no_feed(from),
        no_feed(to),
        to.len() > 0,
    ensures
        text_lines(replace_all(s, from, to)).len() == text_lines(s).len(),
    decreases s.len(),
{
    if s.len() > 0 {
        line_end_is_first_feed(s);
        let k = line_end(s);
        if k == s.len() {
            replace_keeps_feedless(s, from, to);
            lines_of_one(s);
            lines_of_one(replace_all(s, from, to));
        } else {
            let head = s.take(k);
            let rest = s.skip(k + 1);
            assert(s =~= head + seq!['\n'] + rest);
            replace_splits(head, '\n', rest, from, to);
            replace_keeps_feedless(head, from, to);
            lines_after_first(replace_all(head, from, to), replace_all(rest, from, to));
            lines_after_first(head, rest);
            replace_keeps_line_count(rest, from, to);
        }
    }
}

/// A template has as many lines with its placeholders filled as without.
pub proof fn substitution_keeps_line_count(template: Seq<char>)
    ensures
        text_lines(substituted(template)).len() == text_lines(template).len(),
{
    let red = fill(template, Placeholder::Red);
    let yellow = fill(red, Placeholder::Yellow);
    let purple = fill(yellow, Placeholder::Purple);
    reveal_strlit("$RED");
    reveal_strlit("$YELLOW");
    reveal_strlit("$PURPLE");
    reveal_strlit("$WHITE");
    AnsiColor::Red.escape_plain();
    AnsiColor::Yellow.escape_plain();
    AnsiColor::Purple.escape_plain();
    AnsiColor::White.escape_plain();
    AnsiColor::Red.escape_shape();
    AnsiColor::Yellow.escape_shape();
    AnsiColor::Purple.escape_shape();
    AnsiColor::White.escape_shape();
    replace_keeps_line_count(template, Placeholder::Red.token(), AnsiColor::Red.escape());
    replace_keeps_line_count(red, Placeholder::Yellow.token(), AnsiColor::Yellow.escape());
    replace_keeps_line_count(yellow, Placeholder::Purple.token(), AnsiColor::Purple.escape());
    replace_keeps_line_count(purple, Placeholder::White.token(), AnsiColor::White.escape());
}

/// Replacing by a plain text leaves a plain text plain.
pub proof fn replace_keeps_plain(s: Seq<char>, from: Seq<char>, to: Seq<char>)
    requires
        plain_text(s),
        plain_text(to),
    ensures
        plain_text(replace_all(s, from, to)),
    decreases s.len(),
{
    if s.len() > 0 && from.len() > 0 {
        let done: int = if from.is_prefix_of(s) {
            from.len() as int
        } else {
            1
        };
        let rest = s.skip(done);
        plain_concat(s.take(done), rest);
        replace_keeps_plain(rest, from, to);
        plain_concat(to, replace_all(rest, from, to));
        plain_concat(seq![s[0]], replace_all(rest, from, to));
    }
}

/// A plain template is plain with its placeholders filled.
pub proof fn substituted_stays_plain(template: Seq<char>)
    requires
        plain_text(template),
    ensures
        plain_text(substituted(template)),
{
    let red = fill(template, Placeholder::Red);
    let yellow = fill(red, Placeholder::Yellow);
    let purple = fill(yellow, Placeholder::Purple);
    AnsiColor::Red.escape_plain();
    AnsiColor::Yellow.escape_plain();
    AnsiColor::Purple.escape_plain();
    AnsiColor::White.escape_plain();
    replace_keeps_plain(template, Placeholder::Red.token(), AnsiColor::Red.escape());
    replace_keeps_plain(red, Placeholder::Yellow.token(), AnsiColor::Yellow.escape());
    replace_keeps_plain(yellow, Placeholder::Purple.token(), AnsiColor::Purple.escape());
    replace_keeps_plain(purple, Placeholder::White.token(), AnsiColor::White.escape());
}

impl Placeholder {
    /// Every placeholder is a dollar sign and a word of capital letters, and
    /// the four words start with four different letters.
    pub proof fn token_shape(self)
        ensures
            self.token().len() >= 2,
            self.token()[0] == '$',
            lacks(self.token().skip(1), '$'),
            self.token()[1] == match self {
                Placeholder::Red => 'R',
                Placeholder::Yellow => 'Y',
                Placeholder::Purple => 'P',
                Placeholder::White => 'W',
            },
    {
        reveal_strlit("$RED");
        reveal_strlit("$YELLOW");
        reveal_strlit("$PURPLE");
        reveal_strlit("$WHITE");
    }
}

/// No escape sequence holds a dollar sign.
pub proof fn escape_lacks_dollar(tone: AnsiColor)
    ensures
        lacks(tone.escape(), '$'),
{
    tone.escape_shape();
}

/// Filling one placeholder leaves a stretch without dollar sign as it is.
pub proof fn fill_passes(head: Seq<char>, rest: Seq<char>, p: Placeholder)
    requires
        lacks(head, '$'),
    ensures
        fill(head + rest, p) == head + fill(rest, p),
{
    p.token_shape();
    replace_passes(head, rest, p.token(), p.tone().escape());
}

/// Filling one placeholder puts its tone's escape sequence where it stands.
pub proof fn fill_hits(rest: Seq<char>, p: Placeholder)
    ensures
        fill(p.token() + rest, p) == p.tone().escape() + fill(rest, p),
{
    p.token_shape();
    replace_hits(rest, p.token(), p.tone().escape());
}

/// Filling one placeholder leaves every other placeholder as it is.
pub proof fn fill_spares(rest: Seq<char>, p: Placeholder, other: Placeholder)
    requires
        p != other,
    ensures
        fill(other.token() + rest, p) == other.token() + fill(rest, p),
{
    p.token_shape();
    other.token_shape();
    let from = p.token();
    let to = p.tone().escape();
    let s = other.token() + rest;
    let tail = other.token().skip(1);
    assert(s.skip(1) =~= tail + rest);
    replace_passes(tail, rest, from, to);
}

/// A text without dollar sign is its own substitution.
pub proof fn substitution_keeps_plain(text: Seq<char>)
    requires
        lacks(text, '$'),
    ensures
        substituted(text) == text,
{
    let none = Seq::<char>::empty();
    fill_passes(text, none, Placeholder::Red);
    fill_passes(text, none, Placeholder::Yellow);
    fill_passes(text, none, Placeholder::Purple);
    fill_passes(text, none, Placeholder::White);
}

/// One pass over a text that starts without dollar sign and then holds the
/// placeholder `at`, filled already or not.
proof fn fill_step(
    before: Seq<char>,
    at: Placeholder,
    filled: bool,
    after: Seq<char>,
    p: Placeholder,
)
    requires
        lacks(before, '$'),
        p == at ==> !filled,
    ensures
        fill(
            before + (if filled {
                at.tone().escape()
            } else {
                at.token()
            }) + after,
            p,
        ) == before + (if filled || p == at {
            at.tone().escape()
        } else {
            at.token()
        }) + fill(after, p),
{
    let middle = if filled {
        at.tone().escape()
    } else {
        at.token()
    };
    assert(before + middle + after =~= before + (middle + after));
    fill_passes(before, middle + after, p);
    if filled {
        escape_lacks_dollar(at.tone());
        fill_passes(middle, after, p);
    } else if p == at {
        fill_hits(after, p);
    } else {
        fill_spares(after, p, at);
    }
}

/// The first placeholder of a template becomes the escape sequence of its
/// tone, whatever follows it; what stands before it stays, and what follows
/// is substituted on its own.
pub proof fn substitution_at_placeholder(before: Seq<char>, p: Placeholder, after: Seq<char>)
    requires
        lacks(before, '$'),
    ensures
        substituted(before + p.token() + after) == before + p.tone().escape() + substituted(after),
{
    let red = Placeholder::Red;
    let yellow = Placeholder::Yellow;
    let purple = Placeholder::Purple;
    let white = Placeholder::White;
    fill_step(before, p, false, after, red);
    fill_step(before, p, p == red, fill(after, red), yellow);
    fill_step(before, p, p == red || p == yellow, fill(fill(after, red), yellow), purple);
    fill_step(
        before,
        p,
        p == red || p == yellow || p == purple,
        fill(fill(fill(after, red), yellow), purple),
        white,
    );
}

/// A placeholder that stands twice becomes the escape sequence of its tone
/// at both places, and the text around the two stays.
pub proof fn substitution_twice(
    first: Seq<char>,
    p: Placeholder,
    second: Seq<char>,
    third: Seq<char>,
)
    requires
        lacks(first, '$'),
        lacks(second, '$'),
        lacks(third, '$'),
    ensures
        substituted(first + p.token() + second + p.token() + third) == first + p.tone().escape()
            + second + p.tone().escape() + third,
{
    let rest = second + p.token() + third;
    assert(first + p.token() + second + p.token() + third =~= first + p.token() + rest);
    substitution_at_placeholder(first, p, rest);
    substitution_at_placeholder(second, p, third);
    substitution_keeps_plain(third);
}

/// `from` stands nowhere in `s`.
pub open spec fn free_of(s: Seq<char>, from: Seq<char>) -> bool {
    forall|i: int| 0 <= i < s.len() ==> !from.is_prefix_of(#[trigger] s.skip(i))
}

/// Where `from` stands nowhere, nothing is replaced.
pub proof fn replace_leaves_free(s: Seq<char>, from: Seq<char>, to: Seq<char>)
    requires
        free_of(s, from),
    ensures
        replace_all(s, from, to) == s,
    decreases s.len(),
{
    if s.len() > 0 && from.len() > 0 {
        assert(s.skip(0) =~= s);
        let rest = s.skip(1);
        assert forall|i: int| 0 <= i < rest.len() implies !from.is_prefix_of(
            #[trigger] rest.skip(i),
        ) by {
            assert(rest.skip(i) =~= s.skip(i + 1));
        }
        replace_leaves_free(rest, from, to);
    }
}

/// What a replaced text starts with, the text itself starts with, as far as
/// it holds neither the first character of `from` nor that of `to`.
pub proof fn replaced_start(w: Seq<char>, s: Seq<char>, from: Seq<char>, to: Seq<char>)
    requires
        from.len() > 0,
        to.len() > 0,
        lacks(w, from[0]),
        lacks(w, to[0]),
        w.is_prefix_of(replace_all(s, from, to)),
    ensures
        w.is_prefix_of(s),
    decreases w.len(),
{
    let r = replace_all(s, from, to);
    if w.len() > 0 {
        assert(r.subrange(0, w.len() as int)[0] == w[0]);
        if !from.is_prefix_of(s) {
            replaced_start(w.skip(1), s.skip(1), from, to);
            assert(w =~= s.subrange(0, w.len() as int)) by {
                assert forall|j: int| 0 <= j < w.len() implies w[j] == s.subrange(
                    0,
                    w.len() as int,
                )[j] by {
                    if j > 0 {
                        assert(w.skip(1)[j - 1] == s.skip(1).subrange(0, w.len() - 1)[j - 1]);
                    }
                }
            }
        }
    }
}

/// Replacing `from` by `to` leaves `from` nowhere, and brings in no other
/// text `a` that was nowhere: given that `to` lacks the first character of
/// `a`, and the rest of `a` lacks the first characters of `from` and `to`.
pub proof fn replace_frees(s: Seq<char>, a: Seq<char>, from: Seq<char>, to: Seq<char>)
    requires
        from.len() > 0,
        to.len() > 0,
        a.len() > 0,
        lacks(to, a[0]),
        lacks(a.skip(1), from[0]),
        lacks(a.skip(1), to[0]),
        a == from || free_of(s, a),
    ensures
        free_of(replace_all(s, from, to), a),
    decreases s.len(),
{
    let r = replace_all(s, from, to);
    if s.len() > 0 {
        let hit = from.is_prefix_of(s);
        let done: int = if hit {
            from.len() as int
        } else {
            1
        };
        let rest = s.skip(done);
        let tail = replace_all(rest, from, to);
        let front = if hit {
            to
        } else {
            seq![s[0]]
        };
        if a != from {
            assert forall|i: int| 0 <= i < rest.len() implies !a.is_prefix_of(
                #[trigger] rest.skip(i),
            ) by {
                assert(rest.skip(i) =~= s.skip(i + done));
            }
        }
        replace_frees(rest, a, from, to);
        assert forall|i: int| 0 <= i < r.len() implies !a.is_prefix_of(#[trigger] r.skip(i)) by {
            if i >= front.len() {
                assert(r.skip(i) =~= tail.skip(i - front.len()));
            } else if a.is_prefix_of(r.skip(i)) && !hit {
                replaced_start(a.skip(1), rest, from, to);
                assert(a =~= s.subrange(0, a.len() as int)) by {
                    assert forall|j: int| 0 <= j < a.len() implies a[j] == s.subrange(
                        0,
                        a.len() as int,
                    )[j] by {
                        if j > 0 {
                            assert(a.skip(1)[j - 1] == rest.subrange(0, a.len() - 1)[j - 1]);
                        }
                    }
                }
                assert(s.skip(0) =~= s);
            }
        }
    }
}

/// Filling one placeholder leaves it nowhere, and brings in no other
/// placeholder that was nowhere.
pub proof fn fill_frees(s: Seq<char>, absent: Placeholder, p: Placeholder)
    requires
        absent == p || free_of(s, absent.token()),
    ensures
        free_of(fill(s, p), absent.token()),
{
    p.token_shape();
    absent.token_shape();
    p.tone().escape_shape();
    reveal_strlit("$RED");
    reveal_strlit("$YELLOW");
    reveal_strlit("$PURPLE");
    reveal_strlit("$WHITE");
    replace_frees(s, absent.token(), p.token(), p.tone().escape());
}

/// A template with its placeholders filled holds no placeholder.
pub proof fn substituted_is_filled(template: Seq<char>, absent: Placeholder)
    ensures
        free_of(substituted(template), absent.token()),
{
    let red = fill(template, Placeholder::Red);
    let yellow = fill(red, Placeholder::Yellow);
    let purple = fill(yellow, Placeholder::Purple);
    if absent == Placeholder::Red {
        fill_frees(template, absent, Placeholder::Red);
    }
    if absent == Placeholder::Yellow || free_of(red, absent.token()) {
        fill_frees(red, absent, Placeholder::Yellow);
    }
    if absent == Placeholder::Purple || free_of(yellow, absent.token()) {
        fill_frees(yellow, absent, Placeholder::Purple);
    }
    if absent == Placeholder::White || free_of(purple, absent.token()) {
        fill_frees(purple, absent, Placeholder::White);
    }
}

/// Filling the placeholders of a template that has them filled changes
/// nothing.
pub proof fn substitution_is_idempotent(template: Seq<char>)
    ensures
        substituted(substituted(template)) == substituted(template),
{
    let filled = substituted(template);
    substituted_is_filled(template, Placeholder::Red);
    substituted_is_filled(template, Placeholder::Yellow);
    substituted_is_filled(template, Placeholder::Purple);
    substituted_is_filled(template, Placeholder::White);
    replace_leaves_free(filled, Placeholder::Red.token(), Placeholder::Red.tone().escape());
    replace_leaves_free(filled, Placeholder::Yellow.token(), Placeholder::Yellow.tone().escape());
    replace_leaves_free(filled, Placeholder::Purple.token(), Placeholder::Purple.tone().escape());
    replace_leaves_free(filled, Placeholder::White.token(), Placeholder::White.tone().escape());
}

fn starts_at(text: &Vec<char>, at: usize, token: &Vec<char>) -> (found: bool)
    requires
        at <= text.len(),
    ensures
        found == token@.is_prefix_of(text@.skip(at as int)),
{
    if token.len() > text.len() - at {
        return false;
    }
    let mut i: usize = 0;
    while i < token.len()
        invariant
            i <= token.len(),
            at + token.len() <= text.len(),
            forall|j: int| 0 <= j < i ==> token@[j] == text@[at + j],
        decreases token.len() - i,
    {
        if token[i] != text[at + i] {
            return false;
        }
        i += 1;
    }
    true
}

/// Replaces every occurrence of `from` in `text` by `to`.
pub fn replace(text: &str, from: &str, to: &str) -> (replaced: String)
    ensures
        replaced@ == replace_all(text@, from@, to@),
{
    let source = chars_of(text);
    let token = chars_of(from);
    let mut replaced = String::new();
    if token.len() == 0 {
        replaced.append(text);
        return replaced;
    }
    let mut i: usize = 0;
    assert(source@.skip(0) =~= source@);
    while i < source.len()
        invariant
            i <= source.len(),
            source@ == text@,
            token@ == from@,
            token@.len() > 0,
            replaced@ + replace_all(source@.skip(i as int), from@, to@) == replace_all(
                text@,
                from@,
                to@,
            ),
        decreases source.len() - i,
    {
        let ghost rest = source@.skip(i as int);
        if starts_at(&source, i, &token) {
            replaced.append(to);
            i += token.len();
            assert(rest.skip(token@.len() as int) =~= source@.skip(i as int));
        } else {
            replaced.push(source[i]);
            i += 1;
            assert(rest.skip(1) =~= source@.skip(i as int));
        }
    }
    replaced
}

/// Replaces the four placeholders of a template by the escape sequences of
/// their tones.
pub fn substitute(template: &str) -> (logo: String)
    ensures
        logo@ == substituted(template@),
{
    let red = replace(template, Placeholder::Red.text(), add_color(Placeholder::Red.color()));
    let yellow = replace(
        red.as_str(),
        Placeholder::Yellow.text(),
        add_color(Placeholder::Yellow.color()),
    );
    let purple = replace(
        yellow.as_str(),
        Placeholder::Purple.text(),
        add_color(Placeholder::Purple.color()),
    );
    replace(purple.as_str(), Placeholder::White.text(), add_color(Placeholder::White.color()))
}

} // verus!
