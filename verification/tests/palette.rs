use bsdfetch::color::{add_color, AnsiColor};

fn all_tones() -> Vec<AnsiColor> {
    vec![
        AnsiColor::Reset,
        AnsiColor::Black,
        AnsiColor::Red,
        AnsiColor::Green,
        AnsiColor::Yellow,
        AnsiColor::Blue,
        AnsiColor::Purple,
        AnsiColor::Cyan,
        AnsiColor::White,
        AnsiColor::DBlack,
        AnsiColor::DRed,
        AnsiColor::DGreen,
        AnsiColor::DYellow,
        AnsiColor::DBlue,
        AnsiColor::DPurple,
        AnsiColor::DCyan,
        AnsiColor::DWhite,
        AnsiColor::LRed,
        AnsiColor::LYellow,
        AnsiColor::LWhite,
    ]
}

#[test]
fn reset_clears_styling() {
    assert_eq!(add_color(AnsiColor::Reset), "\x1b[0m");
}

#[test]
fn some_escape_sequences() {
    assert_eq!(add_color(AnsiColor::Red), "\x1b[0;31m");
    assert_eq!(add_color(AnsiColor::DRed), "\x1b[2;31m");
    assert_eq!(add_color(AnsiColor::LRed), "\x1b[1;31m");
    assert_eq!(add_color(AnsiColor::DWhite), "\x1b[2;37m");
    assert_eq!(add_color(AnsiColor::Black), "\x1b[0;30m");
}

#[test]
fn every_tone_has_its_own_sequence() {
    let tones = all_tones();
    for (i, a) in tones.iter().enumerate() {
        let code = add_color(*a);
        assert!(code.starts_with("\x1b["));
        assert!(code.ends_with('m'));
        for b in tones.iter().skip(i + 1) {
            assert_ne!(code, add_color(*b));
        }
    }
}

#[test]
fn lookup_is_stable() {
    for tone in all_tones() {
        assert_eq!(add_color(tone), add_color(tone));
    }
}
