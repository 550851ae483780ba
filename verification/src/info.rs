//! The fact block: a header for the account, one labelled line for each
//! fact, and the swatch of the palette.

use crate::base::Base;
use crate::color::{add_color, AnsiColor};
use crate::cpu::CPU;
use crate::memory::Memory;
use crate::pkgs::Pkgs;
use crate::text::{
    decimal, decimal_plain, plain_concat, plain_text, push_decimal, push_repeat, repeat,
};
use crate::user::User;
use vstd::prelude::*;
use vstd::string::*;
use vstd::utf8::{encode_utf8, is_ascii_chars, is_ascii_chars_encode_utf8};

verus! {

/// The rule under the header: one dash for each byte of `user@host`.
pub open spec fn header_rule(user: Seq<char>, host: Seq<char>) -> Seq<char> {
    repeat('-', encode_utf8(user).len() + encode_utf8(host).len() + 1)
}

/// The header: the account in one tone, the `@` and the host together in
/// another, and the rule on the line below.
pub open spec fn header(user: Seq<char>, host: Seq<char>) -> Seq<char> {
    AnsiColor::LRed.escape() + user + AnsiColor::DGreen.escape() + seq!['@'] + host + seq!['\n']
        + header_rule(user, host)
}

/// A labelled line: a line feed, the label and its colon in one tone, a
/// space and the value in another.
pub open spec fn fact_line(label: Seq<char>, value: Seq<char>) -> Seq<char> {
    seq!['\n'] + AnsiColor::LYellow.escape() + label + seq![':'] + AnsiColor::LWhite.escape()
        + seq![' '] + value
}

/// The label of the core count: singular for one core, plural for any other
/// number.
pub open spec fn cores_label(ncpus: int) -> Seq<char> {
    if ncpus == 1 {
        "N-CPU"@
    } else {
        "N-CPUs"@
    }
}

/// The two lines on the processor: its model, then the number of its cores,
/// which is not negative.
pub open spec fn cpu_lines(brand: Seq<char>, ncpus: nat) -> Seq<char> {
    fact_line("CPU"@, brand) + fact_line(cores_label(ncpus as int), decimal(ncpus))
}

/// The amounts of the memory line: used, free, and the total in brackets.
pub open spec fn memory_amounts(used: Seq<char>, free: Seq<char>, total: Seq<char>) -> Seq<char> {
    used + seq!['/'] + free + " ("@ + total + seq![')']
}

/// The value of the memory line: the worded amounts if `extended` is set,
/// the amounts in bytes otherwise.
pub open spec fn memory_value(mem: Memory, extended: bool) -> Seq<char> {
    if extended {
        memory_amounts(mem.used_pretty@, mem.free_pretty@, mem.total_pretty@)
    } else {
        memory_amounts(
            decimal(mem.used_exact as nat),
            decimal(mem.free_exact as nat),
            decimal(mem.total_exact as nat),
        )
    }
}

/// The whole block, with `shell_name` for the shell: the header, then the
/// system, its release, the packages, the uptime, the shell, the processor
/// and its cores, and the memory, in this order. The number of cores is not
/// negative.
pub open spec fn info_block(
    user: User,
    base: Base,
    pkgs: Pkgs,
    cpu: CPU,
    mem: Memory,
    extended: bool,
    shell_name: Seq<char>,
) -> Seq<char> {
    header(user.user@, user.host@) + fact_line("OS"@, base.bsd_type@) + fact_line(
        "Release"@,
        base.bsd_release@,
    ) + fact_line("Packages"@, pkgs.in_total@) + fact_line("Uptime"@, base.uptime@) + fact_line(
        "Shell"@,
        shell_name,
    ) + cpu_lines(cpu.brand@, cpu.ncpus as nat) + fact_line("Memory"@, memory_value(mem, extended))
}

/// The rule is made of dashes, one more than the account and the host have
/// bytes; for names in ASCII that is one more than they have characters.
pub proof fn header_rule_len(user: Seq<char>, host: Seq<char>)
    ensures
        header_rule(user, host).len() == encode_utf8(user).len() + encode_utf8(host).len() + 1,
        is_ascii_chars(user) && is_ascii_chars(host) ==> header_rule(user, host).len()
            == user.len() + host.len() + 1,
        forall|i: int| 0 <= i < header_rule(user, host).len() ==> header_rule(user, host)[i] == '-',
{
    if is_ascii_chars(user) && is_ascii_chars(host) {
        is_ascii_chars_encode_utf8(user);
        is_ascii_chars_encode_utf8(host);
    }
}

/// The header of plain names is plain.
pub proof fn header_plain(user: Seq<char>, host: Seq<char>)
    requires
        plain_text(user),
        plain_text(host),
    ensures
        plain_text(header(user, host)),
{
    let red = AnsiColor::LRed.escape();
    let green = AnsiColor::DGreen.escape();
    AnsiColor::LRed.escape_plain();
    AnsiColor::DGreen.escape_plain();
    plain_concat(red, user);
    plain_concat(red + user, green);
    plain_concat(red + user + green, seq!['@']);
    plain_concat(red + user + green + seq!['@'], host);
    plain_concat(red + user + green + seq!['@'] + host, seq!['\n']);
    plain_concat(red + user + green + seq!['@'] + host + seq!['\n'], header_rule(user, host));
}

/// The labelled line of a plain label and a plain value is plain.
pub proof fn fact_line_plain(label: Seq<char>, value: Seq<char>)
    requires
        plain_text(label),
        plain_text(value),
    ensures
        plain_text(fact_line(label, value)),
{
    let yellow = AnsiColor::LYellow.escape();
    let white = AnsiColor::LWhite.escape();
    AnsiColor::LYellow.escape_plain();
    AnsiColor::LWhite.escape_plain();
    plain_concat(seq!['\n'], yellow);
    plain_concat(seq!['\n'] + yellow, label);
    plain_concat(seq!['\n'] + yellow + label, seq![':']);
    plain_concat(seq!['\n'] + yellow + label + seq![':'], white);
    plain_concat(seq!['\n'] + yellow + label + seq![':'] + white, seq![' ']);
    plain_concat(seq!['\n'] + yellow + label + seq![':'] + white + seq![' '], value);
}

/// The amounts of the memory line are plain where each of them is.
pub proof fn memory_amounts_plain(used: Seq<char>, free: Seq<char>, total: Seq<char>)
    requires
        plain_text(used),
        plain_text(free),
        plain_text(total),
    ensures
        plain_text(memory_amounts(used, free, total)),
{
    reveal_strlit(" (");
    plain_concat(used, seq!['/']);
    plain_concat(used + seq!['/'], free);
    plain_concat(used + seq!['/'] + free, " ("@);
    plain_concat(used + seq!['/'] + free + " ("@, total);
    plain_concat(used + seq!['/'] + free + " ("@ + total, seq![')']);
}

/// The facts as they are shown are all plain.
pub open spec fn plain_facts(
    user: User,
    base: Base,
    pkgs: Pkgs,
    cpu: CPU,
    mem: Memory,
    shell_name: Seq<char>,
) -> bool {
    &&& plain_text(user.user@)
    &&& plain_text(user.host@)
    &&& plain_text(base.bsd_type@)
    &&& plain_text(base.bsd_release@)
    &&& plain_text(base.uptime@)
    &&& plain_text(pkgs.in_total@)
    &&& plain_text(shell_name)
    &&& plain_text(cpu.brand@)
    &&& plain_text(mem.used_pretty@)
    &&& plain_text(mem.free_pretty@)
    &&& plain_text(mem.total_pretty@)
}

/// The block of plain facts is plain.
pub proof fn info_block_plain(
    user: User,
    base: Base,
    pkgs: Pkgs,
    cpu: CPU,
    mem: Memory,
    extended: bool,
    shell_name: Seq<char>,
)
    requires
        plain_facts(user, base, pkgs, cpu, mem, shell_name),
        cpu.ncpus >= 0,
    ensures
        plain_text(info_block(user, base, pkgs, cpu, mem, extended, shell_name)),
{
    reveal_strlit("OS");
    reveal_strlit("Release");
    reveal_strlit("Packages");
    reveal_strlit("Uptime");
    reveal_strlit("Shell");
    reveal_strlit("CPU");
    reveal_strlit("N-CPU");
    reveal_strlit("N-CPUs");
    reveal_strlit("Memory");
    let head = header(user.user@, user.host@);
    let os = fact_line("OS"@, base.bsd_type@);
    let release = fact_line("Release"@, base.bsd_release@);
    let packages = fact_line("Packages"@, pkgs.in_total@);
    let uptime = fact_line("Uptime"@, base.uptime@);
    let shell = fact_line("Shell"@, shell_name);
    let model = fact_line("CPU"@, cpu.brand@);
    let cores = fact_line(cores_label(cpu.ncpus as int), decimal(cpu.ncpus as nat));
    let memory = fact_line("Memory"@, memory_value(mem, extended));
    header_plain(user.user@, user.host@);
    fact_line_plain("OS"@, base.bsd_type@);
    fact_line_plain("Release"@, base.bsd_release@);
    fact_line_plain("Packages"@, pkgs.in_total@);
    fact_line_plain("Uptime"@, base.uptime@);
    fact_line_plain("Shell"@, shell_name);
    fact_line_plain("CPU"@, cpu.brand@);
    decimal_plain(cpu.ncpus as nat);
    fact_line_plain(cores_label(cpu.ncpus as int), decimal(cpu.ncpus as nat));
    decimal_plain(mem.used_exact as nat);
    decimal_plain(mem.free_exact as nat);
    decimal_plain(mem.total_exact as nat);
    if extended {
        memory_amounts_plain(mem.used_pretty@, mem.free_pretty@, mem.total_pretty@);
    } else {
        memory_amounts_plain(
            decimal(mem.used_exact as nat),
            decimal(mem.free_exact as nat),
            decimal(mem.total_exact as nat),
        );
    }
    fact_line_plain("Memory"@, memory_value(mem, extended));
    plain_concat(model, cores);
    plain_concat(head, os);
    plain_concat(head + os, release);
    plain_concat(head + os + release, packages);
    plain_concat(head + os + release + packages, uptime);
    plain_concat(head + os + release + packages + uptime, shell);
    plain_concat(head + os + release + packages + uptime + shell, model + cores);
    plain_concat(head + os + release + packages + uptime + shell + (model + cores), memory);
}

/// Appends the header for `user`.
pub fn add_userhost_info(user: &mut User, out: &mut String)
    ensures
        final(out)@ == old(out)@ + header(old(user).user@, old(user).host@),
        *final(user) == *old(user),
{
    out.append(add_color(AnsiColor::LRed));
    out.append(user.user);
    out.append(add_color(AnsiColor::DGreen));
    out.push('@');
    out.append(user.host.as_str());
    out.push('\n');
    let name_len = user.user.as_bytes().len();
    let host_len = user.host.as_str().as_bytes().len();
    push_repeat(out, '-', name_len);
    push_repeat(out, '-', host_len);
    out.push('-');
}

/// Appends a labelled line.
pub fn add_fact(out: &mut String, label: &str, value: &str)
    ensures
        final(out)@ == old(out)@ + fact_line(label@, value@),
{
    out.push('\n');
    out.append(add_color(AnsiColor::LYellow));
    out.append(label);
    out.push(':');
    out.append(add_color(AnsiColor::LWhite));
    out.push(' ');
    out.append(value);
}

/// Appends the two lines on the processor, of which the number of cores is
/// not negative.
pub fn add_cpu_info(cpu: &CPU, info: &mut String)
    requires
        cpu.ncpus >= 0,
    ensures
        final(info)@ == old(info)@ + cpu_lines(cpu.brand@, cpu.ncpus as nat),
{
    add_fact(info, "CPU", cpu.brand);
    let mut count = String::new();
    push_decimal(&mut count, cpu.ncpus as u64);
    let label = if cpu.ncpus == 1 {
        "N-CPU"
    } else {
        "N-CPUs"
    };
    add_fact(info, label, count.as_str());
}

fn memory_value_of(mem: &Memory, extended: bool) -> (value: String)
    ensures
        value@ == memory_value(*mem, extended),
{
    let mut value = String::new();
    if extended {
        value.append(mem.used_pretty.as_str());
        value.push('/');
        value.append(mem.free_pretty.as_str());
        value.append(" (");
        value.append(mem.total_pretty.as_str());
    } else {
        push_decimal(&mut value, mem.used_exact);
        value.push('/');
        push_decimal(&mut value, mem.free_exact);
        value.append(" (");
        push_decimal(&mut value, mem.total_exact);
    }
    value.push(')');
    value
}

/// Composes the block, with `shell_name` for the shell. The number of cores
/// is not negative.
pub fn compose_with_shell(
    user: &mut User,
    base: &Base,
    pkgs: &Pkgs,
    cpu: &CPU,
    mem: &Memory,
    extended: bool,
    shell_name: &str,
) -> (info: String)
    requires
        cpu.ncpus >= 0,
    ensures
        info@ == info_block(*old(user), *base, *pkgs, *cpu, *mem, extended, shell_name@),
        *final(user) == *old(user),
{
    let mut info = String::new();
    add_userhost_info(user, &mut info);
    add_fact(&mut info, "OS", base.bsd_type.as_str());
    add_fact(&mut info, "Release", base.bsd_release.as_str());
    add_fact(&mut info, "Packages", pkgs.in_total.as_str());
    add_fact(&mut info, "Uptime", base.uptime.as_str());
    add_fact(&mut info, "Shell", shell_name);
    add_cpu_info(cpu, &mut info);
    let memory = memory_value_of(mem, extended);
    add_fact(&mut info, "Memory", memory.as_str());
    info
}

/// The final component of a path, as `Path::file_name` of the standard
/// library finds it; `None` where the path has none.
pub uninterp spec fn path_file_name(path: Seq<char>) -> Option<Seq<char>>;

/// Calls `Path::file_name` of the standard library on `path` and hands the
/// component back as a string; the path was made from a string, so nothing
/// is lost on the way. The contract only gives the result its name.
#[verifier::external_body]
fn file_name_of(path: &str) -> (name: Option<String>)
    ensures
        name is Some <==> path_file_name(path@) is Some,
        name matches Some(text) ==> path_file_name(path@) == Some(text@),
{
    let name = std::path::Path::new(path).file_name()?;
    Some(name.to_string_lossy().into_owned())
}

/// Composes the block. The shell is shown by the final component of its
/// path; for a path without one there is no block. The number of cores is
/// not negative.
pub fn compose_info(
    user: &mut User,
    base: &Base,
    pkgs: &Pkgs,
    cpu: &CPU,
    mem: &Memory,
    extended: bool,
) -> (info: Option<String>)
    requires
        cpu.ncpus >= 0,
    ensures
        match path_file_name(old(user).shell@) {
            Some(name) => info matches Some(text) && text@ == info_block(
                *old(user),
                *base,
                *pkgs,
                *cpu,
                *mem,
                extended,
                name,
            ),
            None => info is None,
        },
        *final(user) == *old(user),
{
    match file_name_of(user.shell) {
        Some(name) => Some(compose_with_shell(user, base, pkgs, cpu, mem, extended, name.as_str())),
        None => None,
    }
}

} // verus!
