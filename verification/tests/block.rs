use bsdfetch::base::Base;
use bsdfetch::cpu::CPU;
use bsdfetch::info::{add_cpu_info, add_fact, add_userhost_info, compose_info, compose_with_shell};
use bsdfetch::memory::{Memory, MemoryInfo};
use bsdfetch::pkgs::{PkgTool, Pkgs};
use bsdfetch::swatch::add_mixing_colors;
use bsdfetch::user::User;

const LRED: &str = "\x1b[1;31m";
const DGREEN: &str = "\x1b[2;32m";
const LYELLOW: &str = "\x1b[1;33m";
const LWHITE: &str = "\x1b[1;37m";

fn sample<'a>() -> (User<'a>, Base, Pkgs, CPU<'a>, Memory) {
    let mut user = User::new();
    user.get_user_info("al", "/usr/local/bin/zsh", "box".to_string());
    let mut base = Base::new();
    base.get_bsd_type("FreeBSD".to_string());
    base.get_bsd_release(Some("14.1-RELEASE".to_string())).unwrap();
    base.get_sys_uptime(90061, false);
    let mut pkgs = Pkgs::new();
    pkgs.get_total_numpkgs(PkgTool::Pkg, b"a\nb\n");
    let mut cpu = CPU::new();
    cpu.get_cpu_model(Some("Ryzen 7")).unwrap();
    cpu.get_num_cpus(8).unwrap();
    let mut mem = Memory::new();
    mem.get_mem_info(0, &MemoryInfo { total: 2048, free: 512 }, 1024).unwrap();
    mem.total_pretty = "2 MiB".to_string();
    mem.used_pretty = "1.5 MiB".to_string();
    mem.free_pretty = "512 KiB".to_string();
    (user, base, pkgs, cpu, mem)
}

#[test]
fn header_for_al_at_box() {
    let mut user = User::new();
    user.get_user_info("al", "/bin/sh", "box".to_string());
    let mut out = String::new();
    add_userhost_info(&mut user, &mut out);
    assert_eq!(out, format!("{LRED}al{DGREEN}@box\n------"));
    assert_eq!(out.matches('\x1b').count(), 2);
    assert_eq!(out.lines().last().unwrap().len(), 6);
    assert_eq!(user.user, "al");
    assert_eq!(user.host, "box");
}

#[test]
fn header_rule_is_one_longer_than_both_names() {
    let names = [("a", "b"), ("root", "localhost"), ("someone", "h"), ("", ""), ("x", "")];
    for (name, host) in names {
        let mut user = User::new();
        user.get_user_info(name, "/bin/sh", host.to_string());
        let mut out = String::from("kept");
        add_userhost_info(&mut user, &mut out);
        assert!(out.starts_with("kept"));
        let rule = out.lines().last().unwrap();
        assert!(rule.chars().all(|c| c == '-'));
        assert_eq!(rule.len(), name.len() + host.len() + 1);
    }
}

#[test]
fn header_rule_counts_bytes() {
    let mut user = User::new();
    user.get_user_info("zoë", "/bin/sh", "box".to_string());
    let mut out = String::new();
    add_userhost_info(&mut user, &mut out);
    assert_eq!(out.lines().last().unwrap(), "--------");
}

#[test]
fn labelled_line() {
    let mut out = String::from("x");
    add_fact(&mut out, "OS", "FreeBSD");
    assert_eq!(out, format!("x\n{LYELLOW}OS:{LWHITE} FreeBSD"));
}

#[test]
fn cores_label_singular_and_plural() {
    for (count, label) in [(1, "N-CPU:"), (0, "N-CPUs:"), (2, "N-CPUs:"), (64, "N-CPUs:")] {
        let mut cpu = CPU::new();
        cpu.get_cpu_model(Some("Z80")).unwrap();
        cpu.get_num_cpus(count).unwrap();
        let mut out = String::new();
        add_cpu_info(&cpu, &mut out);
        assert_eq!(
            out,
            format!("\n{LYELLOW}CPU:{LWHITE} Z80\n{LYELLOW}{label}{LWHITE} {count}")
        );
    }
}

fn expected_block(shell: &str, memory: &str) -> String {
    let mut text = format!("{LRED}al{DGREEN}@box\n------");
    let facts = [
        ("OS", "FreeBSD"),
        ("Release", "14.1-RELEASE"),
        ("Packages", "2 (pkg)"),
        ("Uptime", "1d, 1h, 1m, 1s"),
        ("Shell", shell),
        ("CPU", "Ryzen 7"),
        ("N-CPUs", "8"),
        ("Memory", memory),
    ];
    for (label, value) in facts {
        text.push_str(&format!("\n{LYELLOW}{label}:{LWHITE} {value}"));
    }
    text
}

#[test]
fn whole_block_in_order() {
    let (mut user, base, pkgs, cpu, mem) = sample();
    let info = compose_with_shell(&mut user, &base, &pkgs, &cpu, &mem, false, "zsh");
    assert_eq!(info, expected_block("zsh", "1572864/524288 (2097152)"));
    assert_eq!(info.lines().count(), 10);
}

#[test]
fn memory_line_worded_when_extended() {
    let (mut user, base, pkgs, cpu, mem) = sample();
    let info = compose_with_shell(&mut user, &base, &pkgs, &cpu, &mem, true, "zsh");
    assert_eq!(info, expected_block("zsh", "1.5 MiB/512 KiB (2 MiB)"));
}

#[test]
fn shell_is_shown_by_its_last_component() {
    let (mut user, base, pkgs, cpu, mem) = sample();
    let info = compose_info(&mut user, &base, &pkgs, &cpu, &mem, false);
    assert_eq!(info, Some(expected_block("zsh", "1572864/524288 (2097152)")));
    user.shell = "/bin/sh";
    let info = compose_info(&mut user, &base, &pkgs, &cpu, &mem, false).unwrap();
    assert!(info.contains(&format!("{LYELLOW}Shell:{LWHITE} sh\n")));
    user.shell = "tcsh";
    let info = compose_info(&mut user, &base, &pkgs, &cpu, &mem, false).unwrap();
    assert!(info.contains(&format!("{LYELLOW}Shell:{LWHITE} tcsh\n")));
    user.shell = "/bin/ksh/";
    let info = compose_info(&mut user, &base, &pkgs, &cpu, &mem, false).unwrap();
    assert!(info.contains(&format!("{LYELLOW}Shell:{LWHITE} ksh\n")));
}

#[test]
fn shell_without_a_last_component() {
    let (mut user, base, pkgs, cpu, mem) = sample();
    for shell in ["", "/", "..", "/bin/.."] {
        user.shell = shell;
        assert_eq!(compose_info(&mut user, &base, &pkgs, &cpu, &mem, false), None);
    }
}

fn glyphs(tones: [u8; 8], intensity: u8) -> String {
    let mut row = String::new();
    for hue in tones {
        row.push_str(&format!("\x1b[{intensity};3{hue}m\u{2588}\u{2588}\u{2588}"));
    }
    row
}

#[test]
fn swatch_rows() {
    let mut info = String::from("block");
    add_mixing_colors(&mut info);
    let normal = glyphs([0, 1, 2, 3, 4, 5, 6, 7], 0);
    let dark = glyphs([0, 1, 2, 3, 4, 5, 6, 7], 2);
    assert_eq!(info, format!("block\n{normal}\n{dark}"));
}

#[test]
fn swatch_adds_two_lines_of_eight_glyphs() {
    for block in ["a", "a\nb", "two\nlines\r", "\u{2588}", "x\n\ny"] {
        let mut info = String::from(block);
        add_mixing_colors(&mut info);
        let before = block.lines().count();
        let lines: Vec<&str> = info.lines().collect();
        assert_eq!(lines.len(), before + 2);
        for row in &lines[before..] {
            assert_eq!(row.matches("\u{2588}\u{2588}\u{2588}").count(), 8);
            assert_eq!(row.matches('\x1b').count(), 8);
        }
        assert!(lines[before].starts_with("\x1b[0;30m"));
        assert!(lines[before + 1].starts_with("\x1b[2;30m"));
    }
}

#[test]
fn swatch_is_the_same_behind_any_block() {
    let mut first = String::new();
    add_mixing_colors(&mut first);
    let mut second = String::from("something\n");
    add_mixing_colors(&mut second);
    assert_eq!(second, format!("something\n{first}"));
}
