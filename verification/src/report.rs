//! The whole summary: the fact block, the swatch below it, and the logo
//! beside both.

use crate::base::Base;
use crate::cpu::CPU;
use crate::info::{compose_info, info_block, info_block_plain, path_file_name, plain_facts};
use crate::logo::{can_pair, loaded_view, printed_for, try_print_with_logo, Printed};
use crate::memory::Memory;
use crate::pkgs::Pkgs;
use crate::swatch::{add_mixing_colors, swatch, swatch_plain};
use crate::text::{plain_concat, plain_text};
use crate::user::User;
use vstd::prelude::*;

verus! {

/// Why there is no summary.
#[derive(Clone, Copy, Debug, PartialEq, Eq, Structural)]
pub enum ReportError {
    /// The path of the shell has no final component.
    NoShellName,
    /// The table cannot measure a line of the logo or of the facts.
    NoLayout,
}

impl ReportError {
    /// The diagnostic of each failure.
    pub open spec fn diagnostic(self) -> Seq<char> {
        match self {
            ReportError::NoShellName => "error: the path of the shell has no file name"@,
            ReportError::NoLayout =>
                "error: a line of the logo or of the facts cannot be measured"@,
        }
    }

    /// The diagnostic to end the run with.
    pub fn message(&self) -> (text: &'static str)
        ensures
            text@ == self.diagnostic(),
    {
        match self {
            ReportError::NoShellName => "error: the path of the shell has no file name",
            ReportError::NoLayout =>
                "error: a line of the logo or of the facts cannot be measured",
        }
    }
}

/// What the summary comes to for the shell's final component `shell_name`,
/// if it has one: what is printed, or why nothing is.
pub open spec fn report_for(
    user: User,
    base: Base,
    pkgs: Pkgs,
    cpu: CPU,
    mem: Memory,
    extended: bool,
    shell_name: Option<Seq<char>>,
    ascii_file: Result<Seq<char>, Seq<char>>,
) -> Result<(Seq<char>, Seq<char>), ReportError> {
    match shell_name {
        Some(name) => {
            let block = info_block(user, base, pkgs, cpu, mem, extended, name) + swatch();
            if can_pair(ascii_file, block) {
                Ok(printed_for(ascii_file, block))
            } else {
                Err(ReportError::NoLayout)
            }
        },
        None => Err(ReportError::NoShellName),
    }
}

/// Whether the facts as they are shown, and the template if it was loaded,
/// are plain, and the shell has a name.
pub open spec fn plain_inputs(
    user: User,
    base: Base,
    pkgs: Pkgs,
    cpu: CPU,
    mem: Memory,
    shell_name: Option<Seq<char>>,
    ascii_file: Result<Seq<char>, Seq<char>>,
) -> bool {
    match shell_name {
        Some(name) => plain_facts(user, base, pkgs, cpu, mem, name) && (ascii_file matches Ok(
            template,
        ) ==> plain_text(template)),
        None => false,
    }
}

/// Plain facts make a block that, with the swatch below it, is plain.
pub proof fn plain_facts_make_plain_block(
    user: User,
    base: Base,
    pkgs: Pkgs,
    cpu: CPU,
    mem: Memory,
    extended: bool,
    shell_name: Seq<char>,
)
    requires
        plain_facts(user, base, pkgs, cpu, mem, shell_name),
        cpu.ncpus >= 0,
    ensures
        plain_text(info_block(user, base, pkgs, cpu, mem, extended, shell_name) + swatch()),
{
    info_block_plain(user, base, pkgs, cpu, mem, extended, shell_name);
    swatch_plain();
    plain_concat(info_block(user, base, pkgs, cpu, mem, extended, shell_name), swatch());
}

/// Composes the fact block, appends the swatch and pairs both with the logo.
/// `ascii_file` is the logo's template as it was loaded, or the reason why
/// it could not be. The number of cores is not negative. Where the shell has
/// a name and facts and template are plain, the summary is printed.
pub fn full_report(
    user: &mut User,
    base: &Base,
    pkgs: &Pkgs,
    cpu: &CPU,
    mem: &Memory,
    extended: bool,
    ascii_file: Result<String, String>,
) -> (printed: Result<Printed, ReportError>)
    requires
        cpu.ncpus >= 0,
    ensures
        match report_for(
            *old(user),
            *base,
            *pkgs,
            *cpu,
            *mem,
            extended,
            path_file_name(old(user).shell@),
            loaded_view(ascii_file),
        ) {
            Ok(texts) => printed matches Ok(page) && (page.out@, page.err@) == texts,
            Err(why) => printed == Err::<Printed, ReportError>(why),
        },
        plain_inputs(
            *old(user),
            *base,
            *pkgs,
            *cpu,
            *mem,
            path_file_name(old(user).shell@),
            loaded_view(ascii_file),
        ) ==> printed is Ok,
        *final(user) == *old(user),
{
    match compose_info(user, base, pkgs, cpu, mem, extended) {
        Some(block) => {
            let mut info = block;
            add_mixing_colors(&mut info);
            proof {
                let name = path_file_name(user.shell@)->0;
                if plain_facts(*user, *base, *pkgs, *cpu, *mem, name) {
                    plain_facts_make_plain_block(*user, *base, *pkgs, *cpu, *mem, extended, name);
                }
            }
            match try_print_with_logo(ascii_file, info.as_str()) {
                Some(page) => Ok(page),
                None => Err(ReportError::NoLayout),
            }
        },
        None => Err(ReportError::NoShellName),
    }
}

} // verus!
