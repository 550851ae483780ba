use bsdfetch::base::{format_uptime, Base};

#[test]
fn zero_seconds_short() {
    assert_eq!(format_uptime(0, false), "0s");
}

#[test]
fn zero_seconds_long() {
    assert_eq!(format_uptime(0, true), "0 secs");
}

#[test]
fn one_of_each_unit() {
    assert_eq!(format_uptime(90061, false), "1d, 1h, 1m, 1s");
    assert_eq!(format_uptime(90061, true), "1 days, 1 hours, 1 mins, 1 secs");
}

#[test]
fn seconds_only() {
    assert_eq!(format_uptime(45, false), "45s");
    assert_eq!(format_uptime(45, true), "45 secs");
}

#[test]
fn tier_boundaries() {
    assert_eq!(format_uptime(59, false), "59s");
    assert_eq!(format_uptime(60, false), "1m, 0s");
    assert_eq!(format_uptime(3599, false), "59m, 59s");
    assert_eq!(format_uptime(3600, false), "1h, 0m, 0s");
    assert_eq!(format_uptime(86399, false), "23h, 59m, 59s");
    assert_eq!(format_uptime(86400, false), "1d, 0h, 0m, 0s");
    assert_eq!(format_uptime(86400, true), "1 days, 0 hours, 0 mins, 0 secs");
}

#[test]
fn zero_units_below_the_tier_are_shown() {
    assert_eq!(format_uptime(7200, true), "2 hours, 0 mins, 0 secs");
    assert_eq!(format_uptime(172800 + 5, false), "2d, 0h, 0m, 5s");
    assert_eq!(format_uptime(120, true), "2 mins, 0 secs");
}

#[test]
fn many_days() {
    assert_eq!(format_uptime(987654321, false), "11431d, 4h, 25m, 21s");
    assert_eq!(format_uptime(u64::MAX, false), "213503982334601d, 7h, 0m, 15s");
    assert_eq!(
        format_uptime(u64::MAX, true),
        "213503982334601 days, 7 hours, 0 mins, 15 secs"
    );
}

fn numbers_of(text: &str) -> Vec<u64> {
    text.split(", ")
        .map(|part| {
            let digits: String = part.chars().take_while(|c| c.is_ascii_digit()).collect();
            digits.parse::<u64>().unwrap()
        })
        .collect()
}

#[test]
fn units_add_up_and_stay_in_range() {
    let samples: [u64; 12] = [0, 1, 59, 60, 61, 3599, 3600, 3661, 86399, 86400, 90061, 31_536_000];
    for s in samples {
        for expand in [false, true] {
            let shown = numbers_of(&format_uptime(s, expand));
            let mut padded = vec![0u64; 4 - shown.len()];
            padded.extend(shown.iter());
            let (d, h, m, x) = (padded[0], padded[1], padded[2], padded[3]);
            assert_eq!(d * 86400 + h * 3600 + m * 60 + x, s);
            assert!(h < 24 && m < 60 && x < 60);
            let expected_fields = if d > 0 {
                4
            } else if h > 0 {
                3
            } else if m > 0 {
                2
            } else {
                1
            };
            assert_eq!(shown.len(), expected_fields);
        }
    }
}

#[test]
fn base_starts_empty() {
    let base = Base::new();
    assert_eq!(base.bsd_type, "");
    assert_eq!(base.bsd_release, "");
    assert_eq!(base.uptime, "");
}

#[test]
fn base_records_uptime() {
    let mut base = Base::new();
    base.get_bsd_type("FreeBSD".to_string());
    base.get_sys_uptime(3661, false);
    assert_eq!(base.uptime, "1h, 1m, 1s");
    assert_eq!(base.bsd_type, "FreeBSD");
    base.get_sys_uptime(3661, true);
    assert_eq!(base.uptime, "1 hours, 1 mins, 1 secs");
}

#[test]
fn base_release_present_and_absent() {
    let mut base = Base::new();
    assert_eq!(base.get_bsd_release(Some("14.1-RELEASE".to_string())), Ok(()));
    assert_eq!(base.bsd_release, "14.1-RELEASE");
    let failed = base.get_bsd_release(None);
    assert_eq!(failed, Err(bsdfetch::fact::FactError::NoRelease));
    assert_eq!(base.bsd_release, "14.1-RELEASE");
    assert_eq!(
        bsdfetch::fact::FactError::NoRelease.message(),
        "error: __get_bsd_release() -> null"
    );
}
