//! The number of installed packages, counted from a package tool's listing.

use crate::text::{decimal, decimal_plain, plain_concat, plain_text, push_decimal};
use vstd::prelude::*;
use vstd::string::*;

verus! {

/// The package tools whose listings are counted.
#[derive(Clone, Copy, Debug, PartialEq, Eq, Structural)]
pub enum PkgTool {
    /// `pkg info`
    Pkg,
    /// `pkg_info`
    PkgInfo,
    /// `pkgin list`
    Pkgin,
}

impl PkgTool {
    /// The tool's name as shown after the count.
    pub open spec fn label(self) -> Seq<char> {
        match self {
            PkgTool::Pkg => "pkg"@,
            PkgTool::PkgInfo => "pkg_info"@,
            PkgTool::Pkgin => "pkgin"@,
        }
    }

    /// The tool's name as shown after the count.
    pub fn name(&self) -> (text: &'static str)
        ensures
            text@ == self.label(),
    {
        match self {
            PkgTool::Pkg => "pkg",
            PkgTool::PkgInfo => "pkg_info",
            PkgTool::Pkgin => "pkgin",
        }
    }
}

/// The number of line feeds in `bytes`.
pub open spec fn line_feeds(bytes: Seq<u8>) -> nat
    decreases bytes.len(),
{
    if bytes.len() == 0 {
        0
    } else {
        line_feeds(bytes.drop_last()) + if bytes.last() == 10u8 {
            1nat
        } else {
            0nat
        }
    }
}

/// The number of lines in `bytes`: one for each line feed, and one more for
/// what follows the last line feed, if anything does.
pub open spec fn line_count(bytes: Seq<u8>) -> nat {
    line_feeds(bytes) + if bytes.len() > 0 && bytes.last() != 10u8 {
        1nat
    } else {
        0nat
    }
}

/// There are no more line feeds than bytes.
pub proof fn line_feeds_bound(bytes: Seq<u8>)
    ensures
        line_feeds(bytes) <= bytes.len(),
        bytes.len() > 0 && bytes.last() != 10u8 ==> line_feeds(bytes) < bytes.len(),
    decreases bytes.len(),
{
    if bytes.len() > 0 {
        line_feeds_bound(bytes.drop_last());
    }
}

/// Counts the lines of a listing.
pub fn count_lines(listing: &[u8]) -> (count: usize)
    ensures
        count == line_count(listing@),
{
    let mut feeds: usize = 0;
    let mut i: usize = 0;
    while i < listing.len()
        invariant
            i <= listing.len(),
            feeds == line_feeds(listing@.take(i as int)),
            feeds <= i,
        decreases listing.len() - i,
    {
        assert(listing@.take(i + 1).drop_last() =~= listing@.take(i as int));
        if listing[i] == 10u8 {
            feeds += 1;
        }
        i += 1;
    }
    assert(listing@.take(i as int) =~= listing@);
    if listing.len() > 0 && listing[listing.len() - 1] != 10u8 {
        proof {
            line_feeds_bound(listing@);
        }
        feeds + 1
    } else {
        feeds
    }
}

/// The package count as shown: the number, then the tool in brackets.
pub open spec fn package_text(tool: PkgTool, listing: Seq<u8>) -> Seq<char> {
    decimal(line_count(listing)) + " ("@ + tool.label() + ")"@
}

/// Every package count as shown is plain.
pub proof fn package_text_plain(tool: PkgTool, listing: Seq<u8>)
    ensures
        plain_text(package_text(tool, listing)),
{
    reveal_strlit(" (");
    reveal_strlit(")");
    reveal_strlit("pkg");
    reveal_strlit("pkg_info");
    reveal_strlit("pkgin");
    let count = decimal(line_count(listing));
    decimal_plain(line_count(listing));
    plain_concat(count, " ("@);
    plain_concat(count + " ("@, tool.label());
    plain_concat(count + " ("@ + tool.label(), ")"@);
}

/// The number of installed packages, as text.
pub struct Pkgs {
    pub in_total: String,
}

impl Pkgs {
    /// A record with an empty count.
    pub fn new() -> (pkgs: Pkgs)
        ensures
            pkgs.in_total@.len() == 0,
    {
        Pkgs { in_total: String::new() }
    }

    /// Records how many packages `listing`, the output of `tool`, names: one
    /// on each line.
    pub fn get_total_numpkgs(&mut self, tool: PkgTool, listing: &[u8])
        ensures
            final(self).in_total@ == package_text(tool, listing@),
    {
        let count = count_lines(listing);
        let mut text = String::new();
        push_decimal(&mut text, count as u64);
        text.append(" (");
        text.append(tool.name());
        text.append(")");
        self.in_total = text;
    }
}

} // verus!
