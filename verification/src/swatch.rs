//! The swatch: two rows of block glyphs that show the palette.

use crate::color::{add_color, AnsiColor};
use crate::lines::{lines_after_break, lines_after_first, lines_of_one, no_feed, strip_cr, text_lines};
use crate::text::{plain_concat, plain_text};
use vstd::prelude::*;
use vstd::string::*;

verus! {

/// The tones of the first row, in order.
pub open spec fn normal_tones() -> Seq<AnsiColor> {
    seq![
        AnsiColor::Black,
        AnsiColor::Red,
        AnsiColor::Green,
        AnsiColor::Yellow,
        AnsiColor::Blue,
        AnsiColor::Purple,
        AnsiColor::Cyan,
        AnsiColor::White,
    ]
}

/// The tones of the second row, in order: the dark one of each tone above.
pub open spec fn dark_tones() -> Seq<AnsiColor> {
    seq![
        AnsiColor::DBlack,
        AnsiColor::DRed,
        AnsiColor::DGreen,
        AnsiColor::DYellow,
        AnsiColor::DBlue,
        AnsiColor::DPurple,
        AnsiColor::DCyan,
        AnsiColor::DWhite,
    ]
}

/// One glyph: the tone's escape sequence and three full blocks.
pub open spec fn glyph(tone: AnsiColor) -> Seq<char> {
    tone.escape() + seq!['\u{2588}', '\u{2588}', '\u{2588}']
}

/// One row: the glyph of each tone, in order.
pub open spec fn swatch_row(tones: Seq<AnsiColor>) -> Seq<char>
    decreases tones.len(),
{
    if tones.len() == 0 {
        Seq::empty()
    } else {
        swatch_row(tones.drop_last()) + glyph(tones.last())
    }
}

/// The swatch: each of the two rows on a new line.
pub open spec fn swatch() -> Seq<char> {
    seq!['\n'] + swatch_row(normal_tones()) + seq!['\n'] + swatch_row(dark_tones())
}

/// A row holds no line feed and is plain, and a row of at least one tone
/// ends in a block.
pub proof fn swatch_row_shape(tones: Seq<AnsiColor>)
    ensures
        no_feed(swatch_row(tones)),
        plain_text(swatch_row(tones)),
        tones.len() > 0 ==> swatch_row(tones).len() > 0 && swatch_row(tones).last() == '\u{2588}',
    decreases tones.len(),
{
    if tones.len() > 0 {
        swatch_row_shape(tones.drop_last());
        tones.last().escape_shape();
        tones.last().escape_plain();
        plain_concat(tones.last().escape(), seq!['\u{2588}', '\u{2588}', '\u{2588}']);
        plain_concat(swatch_row(tones.drop_last()), glyph(tones.last()));
    }
}

/// The swatch is plain.
pub proof fn swatch_plain()
    ensures
        plain_text(swatch()),
{
    let first = swatch_row(normal_tones());
    let second = swatch_row(dark_tones());
    swatch_row_shape(normal_tones());
    swatch_row_shape(dark_tones());
    plain_concat(seq!['\n'], first);
    plain_concat(seq!['\n'] + first, seq!['\n']);
    plain_concat(seq!['\n'] + first + seq!['\n'], second);
}

/// Behind a block that does not end in a line feed the swatch adds exactly
/// two lines, the two rows of eight glyphs: the lines of the block stay, but
/// for a carriage return at the end of the last.
pub proof fn swatch_adds_two_lines(block: Seq<char>)
    requires
        block.len() > 0,
        block.last() != '\n',
    ensures
        text_lines(block + swatch()) == text_lines(block).drop_last().push(
            strip_cr(text_lines(block).last()),
        ) + seq![swatch_row(normal_tones()), swatch_row(dark_tones())],
        text_lines(block + swatch()).len() == text_lines(block).len() + 2,
        normal_tones().len() == 8,
        dark_tones().len() == 8,
{
    let first = swatch_row(normal_tones());
    let second = swatch_row(dark_tones());
    swatch_row_shape(normal_tones());
    swatch_row_shape(dark_tones());
    lines_after_first(first, second);
    lines_of_one(second);
    lines_after_break(block, first + seq!['\n'] + second);
    assert(block + swatch() =~= block + seq!['\n'] + (first + seq!['\n'] + second));
}

fn add_glyph(info: &mut String, tone: AnsiColor)
    ensures
        final(info)@ == old(info)@ + glyph(tone),
{
    info.append(add_color(tone));
    info.append("\u{2588}\u{2588}\u{2588}");
    proof {
        reveal_strlit("\u{2588}\u{2588}\u{2588}");
    }
}

fn add_row(info: &mut String, tones: &[AnsiColor; 8])
    ensures
        final(info)@ == old(info)@ + swatch_row(tones@),
{
    let mut i: usize = 0;
    while i < 8
        invariant
            i <= 8,
            tones@.len() == 8,
            info@ == old(info)@ + swatch_row(tones@.take(i as int)),
        decreases 8 - i,
    {
        add_glyph(info, tones[i]);
        i += 1;
        proof {
            let now = tones@.take(i as int);
            assert(now.drop_last() =~= tones@.take(i - 1));
        }
    }
    assert(tones@.take(8) =~= tones@);
}

/// Appends the swatch.
pub fn add_mixing_colors(info: &mut String)
    ensures
        final(info)@ == old(info)@ + swatch(),
{
    let normal_colors = [
        AnsiColor::Black,
        AnsiColor::Red,
        AnsiColor::Green,
        AnsiColor::Yellow,
        AnsiColor::Blue,
        AnsiColor::Purple,
        AnsiColor::Cyan,
        AnsiColor::White,
    ];
    let dark_colors = [
        AnsiColor::DBlack,
        AnsiColor::DRed,
        AnsiColor::DGreen,
        AnsiColor::DYellow,
        AnsiColor::DBlue,
        AnsiColor::DPurple,
        AnsiColor::DCyan,
        AnsiColor::DWhite,
    ];
    info.push('\n');
    add_row(info, &normal_colors);
    info.push('\n');
    add_row(info, &dark_colors);
}

} // verus!
