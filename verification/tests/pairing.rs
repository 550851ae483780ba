use bsdfetch::base::Base;
use bsdfetch::cpu::CPU;
use bsdfetch::lines::{join_lines, split_lines};
use bsdfetch::logo::{
    emit_table, logo_path, pairs, print_with_logo, template_path, try_print_with_logo,
};
use bsdfetch::color::{add_color, AnsiColor};
use bsdfetch::text::is_plain_text;
use bsdfetch::width::{can_lay_out, count_hidden, shown_width_of};
use bsdfetch::memory::Memory;
use bsdfetch::pkgs::Pkgs;
use bsdfetch::report::{full_report, ReportError};
use bsdfetch::template::{replace, substitute, Placeholder};
use bsdfetch::user::User;

const RESET: &str = "\x1b[0m";

#[test]
fn lines_of_texts() {
    let none: Vec<String> = Vec::new();
    assert_eq!(split_lines(""), none);
    assert_eq!(split_lines("\n"), vec![""]);
    assert_eq!(split_lines("a"), vec!["a"]);
    assert_eq!(split_lines("a\n"), vec!["a"]);
    assert_eq!(split_lines("a\nb"), vec!["a", "b"]);
    assert_eq!(split_lines("a\r\nb\r\n"), vec!["a", "b"]);
    assert_eq!(split_lines("a\r"), vec!["a\r"]);
    assert_eq!(split_lines("a\r\r\nb"), vec!["a\r", "b"]);
    assert_eq!(split_lines("a\rb\n\nc"), vec!["a\rb", "", "c"]);
    assert_eq!(split_lines("\r"), vec!["\r"]);
    assert_eq!(split_lines("\r\n"), vec![""]);
}

#[test]
fn lines_as_the_standard_library_splits() {
    let samples = [
        "",
        "\n",
        "\n\n",
        "one",
        "one\ntwo",
        "one\r\ntwo\r\n",
        "\r",
        "\r\r",
        "\r\n\r",
        "x\r\ry\r\n\r\nz\r",
        "tail\n\r",
        "\u{2588}\n\u{e9}\r\n",
    ];
    for text in samples {
        let expected: Vec<String> = text.lines().map(|line| line.to_string()).collect();
        assert_eq!(split_lines(text), expected);
    }
}

#[test]
fn lines_written_out() {
    assert_eq!(join_lines(&Vec::new()), "");
    assert_eq!(join_lines(&vec!["a".to_string(), "".to_string(), "b".to_string()]), "a\n\nb\n");
}

#[test]
fn literal_replacement() {
    assert_eq!(replace("a-b-c", "-", "+"), "a+b+c");
    assert_eq!(replace("aaa", "aa", "b"), "ba");
    assert_eq!(replace("abc", "", "x"), "abc");
    assert_eq!(replace("", "a", "x"), "");
    assert_eq!(replace("abab", "ab", ""), "");
    assert_eq!(replace("xab", "abc", "!"), "xab");
    assert_eq!(replace("a\u{2588}b", "\u{2588}", "##"), "a##b");
}

#[test]
fn placeholders_and_their_tones() {
    assert_eq!(Placeholder::Red.text(), "$RED");
    assert_eq!(Placeholder::Yellow.text(), "$YELLOW");
    assert_eq!(Placeholder::Purple.text(), "$PURPLE");
    assert_eq!(Placeholder::White.text(), "$WHITE");
    assert_eq!(substitute("$RED"), add_color(AnsiColor::Red));
    assert_eq!(substitute("$YELLOW"), add_color(AnsiColor::Yellow));
    assert_eq!(substitute("$PURPLE"), add_color(AnsiColor::Purple));
    assert_eq!(substitute("$WHITE"), add_color(AnsiColor::White));
    assert_eq!(substitute("$RED"), "\x1b[0;31m");
    assert_eq!(substitute("$YELLOW"), "\x1b[0;33m");
    assert_eq!(substitute("$PURPLE"), "\x1b[0;35m");
    assert_eq!(substitute("$WHITE"), "\x1b[0;37m");
}

#[test]
fn placeholder_twice() {
    assert_eq!(substitute("a$REDb$REDc"), "a\x1b[0;31mb\x1b[0;31mc");
    assert_eq!(substitute("$RED$RED"), "\x1b[0;31m\x1b[0;31m");
}

#[test]
fn placeholder_twice_in_a_printed_row() {
    let red = add_color(AnsiColor::Red);
    let printed = print_with_logo(Ok("$REDab$REDcd".to_string()), "");
    assert_eq!(printed.err, "");
    let out = printed.out.strip_suffix(RESET).unwrap();
    assert_eq!(out.lines().count(), 1);
    assert!(out.contains(&format!("{red}ab{red}cd")));
    assert!(!out.contains('$'));
}

#[test]
fn filling_a_filled_template_changes_nothing() {
    for text in ["$RED", "a$YELLOWb$PURPLE$WHITE\n$$RED", "$YEL$REDLOW", "plain", "$WHI$WHITETE"] {
        let once = substitute(text);
        assert_eq!(substitute(&once), once);
    }
}

#[test]
fn filling_keeps_the_number_of_lines() {
    for text in ["", "$RED", "$RED\n$WHITE", "a\n$PURPLE\n", "\n\n$YELLOW", "x$REDy\r\n"] {
        assert_eq!(substitute(text).lines().count(), text.lines().count());
    }
}

#[test]
fn placeholders_do_not_interfere() {
    assert_eq!(
        substitute("$WHITE/$RED\\$PURPLE $YELLOW$RED"),
        "\x1b[0;37m/\x1b[0;31m\\\x1b[0;35m \x1b[0;33m\x1b[0;31m"
    );
    assert_eq!(substitute("$YEL$REDLOW"), "$YEL\x1b[0;31mLOW");
    assert_eq!(substitute("$$RED$"), "$\x1b[0;31m$");
    assert_eq!(substitute("$red $Red RED $GREEN"), "$red $Red RED $GREEN");
    assert_eq!(substitute("$REDDISH"), "\x1b[0;31mDISH");
}

#[test]
fn text_without_placeholder_stays() {
    for text in ["", "plain", " /\\_/\\ \n( o.o )\n", "100 %"] {
        assert_eq!(substitute(text), text);
    }
}

#[test]
fn path_of_a_template() {
    assert_eq!(template_path("freebsd"), "ascii/freebsd.txt");
    assert_eq!(logo_path("FreeBSD"), "ascii/freebsd.txt");
    assert_eq!(logo_path("OpenBSD"), "ascii/openbsd.txt");
    assert_eq!(logo_path("netbsd"), "ascii/netbsd.txt");
    assert_eq!(logo_path(""), "ascii/.txt");
}

#[test]
fn plain_texts() {
    assert!(is_plain_text(""));
    assert!(is_plain_text("abc \x1b[0m\t\r\n\x7f"));
    assert!(is_plain_text("\u{2588}\u{2588}"));
    assert!(!is_plain_text("caf\u{e9}"));
    assert!(!is_plain_text("\u{80}"));
    assert!(!is_plain_text("ok \u{2589}"));
}

#[test]
fn table_printed_line_by_line() {
    assert_eq!(emit_table(" a  b \n c  d \n"), format!(" a  b \n c  d \n{RESET}"));
    assert_eq!(emit_table("no end"), format!("no end\n{RESET}"));
    assert_eq!(emit_table("x\r\ny"), format!("x\ny\n{RESET}"));
    assert_eq!(emit_table(""), RESET);
}

#[test]
fn two_columns_side_by_side() {
    let printed = print_with_logo(Ok("ab\nc".to_string()), "x\ny\nz");
    assert_eq!(printed.out, format!(" ab  x \n c   y \n     z \n{RESET}"));
    assert_eq!(printed.err, "");
}

#[test]
fn logo_taller_than_the_block() {
    let printed = print_with_logo(Ok("1\n22\n333\n".to_string()), "only");
    assert_eq!(printed.out, format!(" 1    only \n 22    \n 333   \n{RESET}"));
    assert_eq!(printed.err, "");
}

#[test]
fn logo_alone() {
    let printed = print_with_logo(Ok("/\\\n\\/".to_string()), "");
    assert_eq!(printed.out, format!(" /\\   \n \\/   \n{RESET}"));
    assert_eq!(printed.err, "");
}

#[test]
fn nothing_to_pair_gives_one_blank_row() {
    let printed = print_with_logo(Ok(String::new()), "");
    assert_eq!(printed.out, format!("    \n{RESET}"));
    assert_eq!(printed.err, "");
}

fn rows_of(out: &str) -> usize {
    out.strip_suffix(RESET).unwrap().lines().count()
}

#[test]
fn as_many_rows_as_the_longer_column() {
    let cases = [
        ("a", "b", 1),
        ("a\nb\nc", "x", 3),
        ("a", "x\ny\nz\nw", 4),
        ("a\nb", "x\ny", 2),
        ("", "x\ny", 2),
        ("a\n\nb\n", "", 3),
        ("$RED#\n$WHITE##", "\x1b[1;33mOS:\x1b[1;37m x", 2),
    ];
    for (logo, info, rows) in cases {
        let printed = print_with_logo(Ok(logo.to_string()), info);
        assert_eq!(printed.err, "");
        assert_eq!(rows_of(&printed.out), rows);
        assert_eq!(rows, logo.lines().count().max(info.lines().count()));
    }
}

#[test]
fn every_row_holds_both_lines() {
    let logo = "$RED.--.\n$YELLOW|  |\n$PURPLE'--'";
    let info = "\x1b[1;31mal\x1b[2;32m@\x1b[1;31mbox\n------\n\x1b[1;33mOS:\x1b[1;37m FreeBSD\nlast";
    let printed = print_with_logo(Ok(logo.to_string()), info);
    let out = printed.out.strip_suffix(RESET).unwrap();
    let rows: Vec<&str> = out.lines().collect();
    let left: Vec<String> = substitute(logo).lines().map(|l| l.to_string()).collect();
    let right: Vec<&str> = info.lines().collect();
    assert_eq!(rows.len(), 4);
    for (i, row) in rows.iter().enumerate() {
        let l = left.get(i).map(|s| s.as_str()).unwrap_or("");
        let r = right.get(i).copied().unwrap_or("");
        assert!(row.starts_with(&format!(" {l}")));
        assert!(row.ends_with(&format!("  {r} ")));
        let fill = &row[1 + l.len()..row.len() - r.len() - 3];
        assert!(fill.chars().all(|c| c == ' '));
    }
}

#[test]
fn unknown_system_is_reported() {
    let why = "No such file or directory (os error 2)".to_string();
    let printed = print_with_logo(Err(why), "facts");
    assert_eq!(printed.out, "");
    assert_eq!(printed.out.lines().count(), 0);
    assert_eq!(printed.err, "error: No such file or directory (os error 2)\n");
    assert_eq!(printed.err.lines().count(), 1);
}

#[test]
fn text_that_cannot_be_measured_is_left_alone() {
    let ligatures = "\u{1b}[\u{644}\u{627}\u{644}\u{627}".to_string();
    assert!(!can_lay_out(&ligatures));
    assert_eq!(shown_width_of(&ligatures), None);
    assert!(!pairs(&Ok(ligatures.clone()), "x"));
    assert!(try_print_with_logo(Ok(ligatures.clone()), "x").is_none());
    assert!(!pairs(&Ok("x".to_string()), &ligatures));
    assert!(try_print_with_logo(Ok("fine\n".to_string()), &format!("ok\n{ligatures}")).is_none());
    assert!(pairs(&Err(ligatures.clone()), &ligatures));
}

#[test]
fn text_beyond_ascii_is_laid_out() {
    assert!(pairs(&Ok("logo".to_string()), "caf\u{e9}"));
    let page = try_print_with_logo(Ok("logo".to_string()), "caf\u{e9}").unwrap();
    assert_eq!(page.out, format!(" logo  caf\u{e9} \n{RESET}"));
    assert_eq!(page.err, "");
    let page = try_print_with_logo(Ok("\u{e9}\nab".to_string()), "").unwrap();
    assert_eq!(page.out, format!(" \u{e9}    \n ab   \n{RESET}"));
    let page = try_print_with_logo(Ok("\u{65e5}\u{672c}\nabcde".to_string()), "x").unwrap();
    assert_eq!(page.out, format!(" \u{65e5}\u{672c}   x \n abcde   \n{RESET}"));
    let ligature = "\u{644}\u{627}";
    assert_eq!(shown_width_of(ligature), Some(1));
    let page = try_print_with_logo(Ok(format!("{ligature}\nab")), "x").unwrap();
    assert_eq!(page.out, format!(" {ligature}   x \n ab   \n{RESET}"));
}

#[test]
fn widths_of_lines() {
    assert_eq!(shown_width_of(""), Some(0));
    assert_eq!(shown_width_of("abc"), Some(3));
    assert_eq!(shown_width_of("\u{2588}\u{2588}"), Some(2));
    assert_eq!(shown_width_of("\u{65e5}"), Some(2));
    assert_eq!(count_hidden("abc"), 0);
    assert_eq!(count_hidden("\x1b[0;31mab"), 6);
    assert_eq!(count_hidden("\x1b[0;31mab\x1b[0m"), 9);
    assert_eq!(count_hidden("\x1bx[0m"), 0);
    assert_eq!(count_hidden("\x1b\x1b[m"), 0);
    assert_eq!(count_hidden("\x1b[\x1b[m!"), 3);
    assert_eq!(count_hidden("\x1b[never closed"), 13);
    assert_eq!(count_hidden("[0m"), 0);
    let coloured = shown_width_of("\x1b[0;31mab").unwrap();
    assert_eq!(coloured + count_hidden("\x1b[0;31mab"), 9);
    assert!(can_lay_out(""));
    assert!(can_lay_out("a\n\x1b[1;33mOS:\x1b[1;37m x\n\u{e9}"));
}

#[test]
fn text_that_can_be_laid_out_is_paired() {
    assert!(pairs(&Ok("$RED\u{2588}".to_string()), "x\ty"));
    assert!(pairs(&Err("caf\u{e9}".to_string()), "caf\u{e9}"));
    let page = try_print_with_logo(Ok("ab\nc".to_string()), "x\ny\nz").unwrap();
    assert_eq!(page.out, format!(" ab  x \n c   y \n     z \n{RESET}"));
    assert_eq!(page.err, "");
    let page = try_print_with_logo(Err("caf\u{e9}".to_string()), "caf\u{e9}").unwrap();
    assert_eq!(page.out, "");
    assert_eq!(page.err, "error: caf\u{e9}\n");
}

#[test]
fn full_blocks_are_laid_out() {
    let printed = print_with_logo(Ok("\u{2588}\u{2588}\n\u{2588}".to_string()), "x\ny");
    assert_eq!(printed.out, format!(" \u{2588}\u{2588}  x \n \u{2588}   y \n{RESET}"));
}

#[test]
fn summary_from_facts_to_print() {
    let mut user = User::new();
    user.get_user_info("al", "/bin/sh", "box".to_string());
    let mut base = Base::new();
    base.get_bsd_type("FreeBSD".to_string());
    base.get_sys_uptime(45, true);
    let pkgs = Pkgs::new();
    let mut cpu = CPU::new();
    cpu.get_num_cpus(1).unwrap();
    let mem = Memory::new();
    let page = full_report(&mut user, &base, &pkgs, &cpu, &mem, false, Ok("$RED<>\n".to_string()))
        .ok()
        .unwrap();
    assert_eq!(page.err, "");
    let out = page.out.strip_suffix(RESET).unwrap();
    let rows: Vec<&str> = out.lines().collect();
    assert_eq!(rows.len(), 12);
    assert!(rows[0].starts_with(" \x1b[0;31m<>"));
    assert!(rows[0].ends_with("  \x1b[1;31mal\x1b[2;32m@box "));
    assert!(rows[1].ends_with("  ------ "));
    assert!(rows[5].ends_with("  \x1b[1;33mUptime:\x1b[1;37m 45 secs "));
    assert!(rows[6].ends_with("  \x1b[1;33mShell:\x1b[1;37m sh "));
    assert!(rows[8].ends_with("  \x1b[1;33mN-CPU:\x1b[1;37m 1 "));
    assert!(rows[9].ends_with("  \x1b[1;33mMemory:\x1b[1;37m 0/0 (0) "));
    assert_eq!(rows[10].matches("\u{2588}\u{2588}\u{2588}").count(), 8);
    assert_eq!(rows[11].matches("\u{2588}\u{2588}\u{2588}").count(), 8);
}

#[test]
fn summary_without_logo_or_shell() {
    let mut user = User::new();
    user.get_user_info("al", "/bin/sh", "box".to_string());
    let base = Base::new();
    let pkgs = Pkgs::new();
    let cpu = CPU::new();
    let mem = Memory::new();
    let page = full_report(&mut user, &base, &pkgs, &cpu, &mem, true, Err("gone".to_string()))
        .ok()
        .unwrap();
    assert_eq!(page.out, "");
    assert_eq!(page.err, "error: gone\n");
    user.shell = "";
    let failed = full_report(&mut user, &base, &pkgs, &cpu, &mem, true, Ok(String::new()));
    assert_eq!(failed.err(), Some(ReportError::NoShellName));
    assert_eq!(
        ReportError::NoShellName.message(),
        "error: the path of the shell has no file name"
    );
}

#[test]
fn summary_of_facts_beyond_ascii() {
    let mut user = User::new();
    user.get_user_info("zo\u{eb}", "/bin/sh", "box".to_string());
    let base = Base::new();
    let pkgs = Pkgs::new();
    let cpu = CPU::new();
    let mem = Memory::new();
    let page = full_report(&mut user, &base, &pkgs, &cpu, &mem, false, Ok("\u{e9}".to_string()))
        .ok()
        .unwrap();
    assert_eq!(page.err, "");
    let rows: Vec<&str> = page.out.lines().collect();
    assert!(rows[0].starts_with(" \u{e9}  "));
    assert!(rows[0].ends_with("  \x1b[1;31mzo\u{eb}\x1b[2;32m@box "));
    assert!(rows[1].ends_with("  -------- "));
}

#[test]
fn summary_of_facts_that_cannot_be_measured() {
    let mut user = User::new();
    user.get_user_info("al", "/bin/sh", "box".to_string());
    let mut base = Base::new();
    base.get_bsd_type(format!("\u{1b}[{}", "\u{644}\u{627}".repeat(8)));
    let pkgs = Pkgs::new();
    let cpu = CPU::new();
    let mem = Memory::new();
    let failed = full_report(&mut user, &base, &pkgs, &cpu, &mem, false, Ok("logo".to_string()));
    assert_eq!(failed.err(), Some(ReportError::NoLayout));
    let failed = full_report(&mut user, &base, &pkgs, &cpu, &mem, false, Err("gone".to_string()));
    assert_eq!(failed.ok().unwrap().err, "error: gone\n");
    assert_eq!(
        ReportError::NoLayout.message(),
        "error: a line of the logo or of the facts cannot be measured"
    );
}

#[test]
fn every_plain_character_is_laid_out() {
    let mut all = String::new();
    for code in 0u8..128 {
        all.push(code as char);
    }
    all.push('\u{2588}');
    let openers = "\x1b[\x1b[\x1b[ unfinished\n\x1b[0;31\u{2588}\u{2588}m\x1b\x1b[[m\n\r\n\rends\r";
    for (logo, info) in [(all.as_str(), openers), (openers, all.as_str()), (all.as_str(), all.as_str())] {
        let printed = print_with_logo(Ok(logo.to_string()), info);
        assert_eq!(printed.err, "");
        let rows = rows_of(&printed.out);
        assert_eq!(rows, logo.lines().count().max(info.lines().count()));
        let out = printed.out.strip_suffix(RESET).unwrap();
        let left: Vec<&str> = logo.lines().collect();
        let right: Vec<&str> = info.lines().collect();
        for (i, row) in out.split_terminator('\n').enumerate() {
            let l = left.get(i).copied().unwrap_or("");
            let r = right.get(i).copied().unwrap_or("");
            assert!(row.starts_with(&format!(" {l}")));
            assert!(row.ends_with(&format!("  {r} ")));
            assert!(row[1 + l.len()..row.len() - r.len() - 3].chars().all(|c| c == ' '));
        }
    }
}

#[test]
fn whatever_can_be_measured_is_laid_out() {
    let alphabet = [
        '\x1b', '[', 'm', '1', ' ', '\u{644}', '\u{627}', '\u{200d}', '\u{fe0f}', '\u{1f468}',
        '\u{17d2}', '\u{1780}', '\u{e9}', '\r',
    ];
    let mut texts: Vec<String> = vec![String::new()];
    let mut edge: Vec<String> = vec![String::new()];
    for _ in 0..4 {
        let mut longer = Vec::new();
        for text in &edge {
            for c in alphabet {
                let mut next = text.clone();
                next.push(c);
                longer.push(next);
            }
        }
        texts.extend(longer.iter().cloned());
        edge = longer;
    }
    let opened: Vec<String> = texts.iter().map(|text| format!("\x1b[{text}{text}")).collect();
    texts.extend(opened);
    let mut measured = 0;
    for text in &texts {
        let fit = can_lay_out(text);
        assert_eq!(fit, shown_width_of(text).is_some());
        assert_eq!(fit, pairs(&Ok(text.clone()), "x"));
        if fit {
            measured += 1;
            let page = try_print_with_logo(Ok(text.clone()), text).unwrap();
            let row = page.out.strip_suffix(RESET).unwrap();
            if text.is_empty() {
                assert_eq!(row, "    \n");
            } else {
                assert_eq!(row, format!(" {text}  {text} \n"));
            }
        } else {
            assert!(try_print_with_logo(Ok(text.clone()), text).is_none());
            assert!(text.contains("\x1b["));
        }
    }
    assert!(measured > 60000);
    assert!(measured < texts.len());
}

#[test]
fn plain_lines_take_one_column_for_each_character() {
    let mut line = String::new();
    for code in 0u8..128 {
        if code != b'\n' {
            line.push(code as char);
        }
    }
    line.push('\u{2588}');
    assert!(is_plain_text(&line));
    let characters = line.chars().count();
    assert_eq!(shown_width_of(&line), Some(characters - count_hidden(&line)));
    for c in line.chars() {
        let mut one = String::new();
        one.push(c);
        assert_eq!(shown_width_of(&one), Some(1));
        let around = format!("\u{2588}{c}{c}x");
        assert_eq!(shown_width_of(&around), Some(4));
        let opened = format!("\x1b[1{c}");
        let hidden = count_hidden(&opened);
        assert_eq!(shown_width_of(&opened), Some(4 - hidden));
    }
}
