//! The operating system's identity and its uptime.

use crate::fact::FactError;
use crate::text::{decimal, decimal_plain, plain_concat, plain_text, push_decimal};
use vstd::prelude::*;
use vstd::string::*;

verus! {

/// Whole days in `s` seconds.
pub open spec fn uptime_days(s: nat) -> int {
    s as int / 86400
}

/// Whole hours in `s` seconds beyond the whole days.
pub open spec fn uptime_hours(s: nat) -> int {
    s as int / 3600 - uptime_days(s) * 24
}

/// Whole minutes in `s` seconds beyond the whole hours.
pub open spec fn uptime_mins(s: nat) -> int {
    s as int / 60 - uptime_days(s) * 1440 - uptime_hours(s) * 60
}

/// Seconds in `s` beyond the whole minutes.
pub open spec fn uptime_secs(s: nat) -> int {
    s as int - uptime_days(s) * 86400 - uptime_hours(s) * 3600 - uptime_mins(s) * 60
}

/// The units of an uptime, coarsest first.
#[derive(Clone, Copy, Debug, PartialEq, Eq, Structural)]
pub enum UptimeUnit {
    Days,
    Hours,
    Mins,
    Secs,
}

/// The coarsest unit of which `s` seconds hold at least one; seconds where
/// there is none.
pub open spec fn uptime_tier(s: nat) -> UptimeUnit {
    if uptime_days(s) > 0 {
        UptimeUnit::Days
    } else if uptime_hours(s) > 0 {
        UptimeUnit::Hours
    } else if uptime_mins(s) > 0 {
        UptimeUnit::Mins
    } else {
        UptimeUnit::Secs
    }
}

/// What follows the number of a unit: a word in the long form, a letter in
/// the short one.
pub open spec fn unit_suffix(unit: UptimeUnit, expand: bool) -> Seq<char> {
    match unit {
        UptimeUnit::Days => if expand { " days"@ } else { "d"@ },
        UptimeUnit::Hours => if expand { " hours"@ } else { "h"@ },
        UptimeUnit::Mins => if expand { " mins"@ } else { "m"@ },
        UptimeUnit::Secs => if expand { " secs"@ } else { "s"@ },
    }
}

/// One unit of an uptime as text: its number, then its suffix.
pub open spec fn unit_text(value: int, unit: UptimeUnit, expand: bool) -> Seq<char> {
    decimal(value as nat) + unit_suffix(unit, expand)
}

/// An uptime as text: every unit from the coarsest that is not zero down to
/// the seconds, joined by a comma and a space.
pub open spec fn uptime_text(s: nat, expand: bool) -> Seq<char> {
    let days = unit_text(uptime_days(s), UptimeUnit::Days, expand);
    let hours = unit_text(uptime_hours(s), UptimeUnit::Hours, expand);
    let mins = unit_text(uptime_mins(s), UptimeUnit::Mins, expand);
    let secs = unit_text(uptime_secs(s), UptimeUnit::Secs, expand);
    match uptime_tier(s) {
        UptimeUnit::Days => days + ", "@ + hours + ", "@ + mins + ", "@ + secs,
        UptimeUnit::Hours => hours + ", "@ + mins + ", "@ + secs,
        UptimeUnit::Mins => mins + ", "@ + secs,
        UptimeUnit::Secs => secs,
    }
}

/// The units of an uptime add up to it, each lies in its range, and the tier
/// is the coarsest unit that is not zero: exactly one of the four.
pub proof fn uptime_parts_exact(s: nat)
    ensures
        uptime_days(s) * 86400 + uptime_hours(s) * 3600 + uptime_mins(s) * 60 + uptime_secs(s)
            == s,
        0 <= uptime_days(s),
        0 <= uptime_hours(s) < 24,
        0 <= uptime_mins(s) < 60,
        0 <= uptime_secs(s) < 60,
        uptime_tier(s) == UptimeUnit::Days <==> s >= 86400,
        uptime_tier(s) == UptimeUnit::Hours <==> 3600 <= s < 86400,
        uptime_tier(s) == UptimeUnit::Mins <==> 60 <= s < 3600,
        uptime_tier(s) == UptimeUnit::Secs <==> s < 60,
{
}

/// Both forms of an uptime show the same units: which ones is decided by the
/// tier alone, and each number is the unit's own.
pub proof fn uptime_text_by_tier(s: nat, expand: bool)
    ensures
        s < 60 ==> uptime_text(s, expand) == unit_text(s as int, UptimeUnit::Secs, expand),
        60 <= s < 3600 ==> uptime_text(s, expand) == unit_text(
            s as int / 60,
            UptimeUnit::Mins,
            expand,
        ) + ", "@ + unit_text(s as int % 60, UptimeUnit::Secs, expand),
        3600 <= s < 86400 ==> uptime_text(s, expand) == unit_text(
            s as int / 3600,
            UptimeUnit::Hours,
            expand,
        ) + ", "@ + unit_text(s as int / 60 % 60, UptimeUnit::Mins, expand) + ", "@ + unit_text(
            s as int % 60,
            UptimeUnit::Secs,
            expand,
        ),
        s >= 86400 ==> uptime_text(s, expand) == unit_text(
            s as int / 86400,
            UptimeUnit::Days,
            expand,
        ) + ", "@ + unit_text(s as int / 3600 % 24, UptimeUnit::Hours, expand) + ", "@ + unit_text(
            s as int / 60 % 60,
            UptimeUnit::Mins,
            expand,
        ) + ", "@ + unit_text(s as int % 60, UptimeUnit::Secs, expand),
{
    uptime_parts_exact(s);
}

/// Every uptime as text is plain.
pub proof fn uptime_text_plain(s: nat, expand: bool)
    ensures
        plain_text(uptime_text(s, expand)),
{
    reveal_strlit(" days");
    reveal_strlit(" hours");
    reveal_strlit(" mins");
    reveal_strlit(" secs");
    reveal_strlit("d");
    reveal_strlit("h");
    reveal_strlit("m");
    reveal_strlit("s");
    reveal_strlit(", ");
    uptime_parts_exact(s);
    let days = unit_text(uptime_days(s), UptimeUnit::Days, expand);
    let hours = unit_text(uptime_hours(s), UptimeUnit::Hours, expand);
    let mins = unit_text(uptime_mins(s), UptimeUnit::Mins, expand);
    let secs = unit_text(uptime_secs(s), UptimeUnit::Secs, expand);
    decimal_plain(uptime_days(s) as nat);
    decimal_plain(uptime_hours(s) as nat);
    decimal_plain(uptime_mins(s) as nat);
    decimal_plain(uptime_secs(s) as nat);
    plain_concat(decimal(uptime_days(s) as nat), unit_suffix(UptimeUnit::Days, expand));
    plain_concat(decimal(uptime_hours(s) as nat), unit_suffix(UptimeUnit::Hours, expand));
    plain_concat(decimal(uptime_mins(s) as nat), unit_suffix(UptimeUnit::Mins, expand));
    plain_concat(decimal(uptime_secs(s) as nat), unit_suffix(UptimeUnit::Secs, expand));
    plain_concat(mins, ", "@);
    plain_concat(mins + ", "@, secs);
    plain_concat(hours, ", "@);
    plain_concat(hours + ", "@, mins);
    plain_concat(hours + ", "@ + mins, ", "@);
    plain_concat(hours + ", "@ + mins + ", "@, secs);
    plain_concat(days, ", "@);
    plain_concat(days + ", "@, hours);
    plain_concat(days + ", "@ + hours, ", "@);
    plain_concat(days + ", "@ + hours + ", "@, mins);
    plain_concat(days + ", "@ + hours + ", "@ + mins, ", "@);
    plain_concat(days + ", "@ + hours + ", "@ + mins + ", "@, secs);
}

fn unit_suffix_of(unit: UptimeUnit, expand: bool) -> (text: &'static str)
    ensures
        text@ == unit_suffix(unit, expand),
{
    match unit {
        UptimeUnit::Days => if expand { " days" } else { "d" },
        UptimeUnit::Hours => if expand { " hours" } else { "h" },
        UptimeUnit::Mins => if expand { " mins" } else { "m" },
        UptimeUnit::Secs => if expand { " secs" } else { "s" },
    }
}

fn push_unit(out: &mut String, value: u64, unit: UptimeUnit, expand: bool)
    ensures
        final(out)@ == old(out)@ + unit_text(value as int, unit, expand),
{
    push_decimal(out, value);
    out.append(unit_suffix_of(unit, expand));
}

/// Renders an uptime of `uptime` seconds, in the long form if `expand` is set
/// and in the short one otherwise.
pub fn format_uptime(uptime: u64, expand: bool) -> (text: String)
    ensures
        text@ == uptime_text(uptime as nat, expand),
{
    let days: u64 = uptime / 86400;
    let hours: u64 = (uptime / 3600) - (days * 24);
    let mins: u64 = (uptime / 60) - (days * 1440) - (hours * 60);
    let secs: u64 = uptime - (days * 86400) - (hours * 3600) - (mins * 60);
    let mut text = String::new();
    if days > 0 {
        push_unit(&mut text, days, UptimeUnit::Days, expand);
        text.append(", ");
    }
    if days > 0 || hours > 0 {
        push_unit(&mut text, hours, UptimeUnit::Hours, expand);
        text.append(", ");
    }
    if days > 0 || hours > 0 || mins > 0 {
        push_unit(&mut text, mins, UptimeUnit::Mins, expand);
        text.append(", ");
    }
    push_unit(&mut text, secs, UptimeUnit::Secs, expand);
    text
}

/// The operating system's name and release, and its uptime as text.
pub struct Base {
    pub bsd_type: String,
    pub bsd_release: String,
    pub uptime: String,
}

impl Base {
    /// A record with every field empty.
    pub fn new() -> (base: Base)
        ensures
            base.bsd_type@.len() == 0,
            base.bsd_release@.len() == 0,
            base.uptime@.len() == 0,
    {
        Base { bsd_type: String::new(), bsd_release: String::new(), uptime: String::new() }
    }

    /// Records the system's name as the provider gave it.
    pub fn get_bsd_type(&mut self, name: String)
        ensures
            final(self).bsd_type == name,
            final(self).bsd_release == old(self).bsd_release,
            final(self).uptime == old(self).uptime,
    {
        self.bsd_type = name;
    }

    /// Records the system's release. A provider without one is an error, and
    /// the record stays as it was.
    pub fn get_bsd_release(&mut self, release: Option<String>) -> (done: Result<(), FactError>)
        ensures
            release matches Some(text) ==> done is Ok && final(self).bsd_release == text,
            release is None ==> done == Err::<(), FactError>(FactError::NoRelease)
                && final(self).bsd_release == old(self).bsd_release,
            final(self).bsd_type == old(self).bsd_type,
            final(self).uptime == old(self).uptime,
    {
        match release {
            Some(text) => {
                self.bsd_release = text;
                Ok(())
            },
            None => Err(FactError::NoRelease),
        }
    }

    /// Records the uptime of `uptime` seconds as text, long if `expand` is set.
    pub fn get_sys_uptime(&mut self, uptime: u64, expand: bool)
        ensures
            final(self).uptime@ == uptime_text(uptime as nat, expand),
            final(self).bsd_type == old(self).bsd_type,
            final(self).bsd_release == old(self).bsd_release,
    {
        self.uptime = format_uptime(uptime, expand);
    }
}

} // verus!
