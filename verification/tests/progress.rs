use progress_bar::progress::{
    LimitedInfoDisplay, LimitedType, Progress, ProgressType, UnlimitedType,
};
use progress_bar::render::{decimal, filled_segments, percent_rounded, repeat_byte, MAX_SEGMENTS};

const ERASE: &str = "\x1B[1A\x1B[2K\x1B[1A\x1B[2K";

fn limited_frame(erase: bool, annotation: &str, filled: usize) -> Vec<u8> {
    let mut s = String::new();
    if erase {
        s.push_str(ERASE);
    }
    s.push('[');
    s.push_str(&" ".repeat(MAX_SEGMENTS));
    s.push_str("] ");
    s.push_str(annotation);
    s.push('\n');
    s.push('[');
    s.push_str(&"=".repeat(filled));
    s.push('\n');
    s.into_bytes()
}

fn unlimited_frame(erase: bool, phase: usize) -> Vec<u8> {
    let mut s = String::new();
    if erase {
        s.push_str(ERASE);
    }
    s.push('[');
    s.push_str(&" ".repeat(MAX_SEGMENTS));
    s.push_str("]\n[");
    s.push_str(&" ".repeat(phase));
    s.push_str("=\n");
    s.into_bytes()
}

#[test]
fn mode_selection() {
    let bounded = Progress::wrap(Some(100));
    assert_eq!(bounded.current, 0);
    assert_eq!(
        bounded.mode,
        ProgressType::Limited(LimitedType {
            upper: 100,
            display_type: LimitedInfoDisplay::Percent,
        })
    );

    let unbounded = Progress::wrap(None);
    assert_eq!(unbounded.current, 0);
    assert_eq!(
        unbounded.mode,
        ProgressType::Unlimited(UnlimitedType { animation_pos: 0 })
    );

    let cfg = LimitedType::new(50);
    assert_eq!(cfg.upper, 50);
    assert_eq!(cfg.display_type, LimitedInfoDisplay::Percent);
    assert_eq!(UnlimitedType::new().animation_pos, 0);
}

#[test]
fn limited() {
    let mut p = Progress::wrap(Some(100));
    for k in 0..100usize {
        assert_eq!(p.current, k);
        assert!(p.can_step());
        let out = p.step();
        let expected_percent = percent_rounded(k, 100);
        let annotation = format!("{}%", expected_percent);
        assert_eq!(out, limited_frame(k > 0, &annotation, filled_segments(k, 100)));
    }
    assert_eq!(p.current, 100);
    assert_eq!(
        p.mode,
        ProgressType::Limited(LimitedType {
            upper: 100,
            display_type: LimitedInfoDisplay::Percent,
        })
    );
}

#[test]
fn unlimited() {
    let mut p = Progress::wrap(None);
    for k in 0..=100usize {
        assert!(p.can_step());
        let out = p.step();
        assert_eq!(out, unlimited_frame(k > 0, k % MAX_SEGMENTS));
    }
    assert_eq!(p.current, 101);
    assert_eq!(
        p.mode,
        ProgressType::Unlimited(UnlimitedType { animation_pos: 101 % MAX_SEGMENTS })
    );
}

#[test]
fn cases_scenario() {
    let mut p = Progress {
        current: 0,
        mode: ProgressType::Limited(LimitedType {
            upper: 4,
            display_type: LimitedInfoDisplay::Cases,
        }),
    };
    let annotations = ["0/4", "1/4", "2/4", "3/4"];
    let fills = [0usize, 5, 10, 15];
    for k in 0..4usize {
        let out = p.step();
        assert_eq!(out, limited_frame(k > 0, annotations[k], fills[k]));
    }
}

#[test]
fn percent_scenario() {
    let mut p = Progress::wrap(Some(3));
    let percents = ["0%", "33%", "67%"];
    for k in 0..3usize {
        let out = p.step();
        assert_eq!(out, limited_frame(k > 0, percents[k], filled_segments(k, 3)));
    }
}

#[test]
fn unbounded_scenario() {
    let mut p = Progress::wrap(None);
    for phase in 0..3usize {
        match p.mode {
            ProgressType::Unlimited(cfg) => assert_eq!(cfg.animation_pos, phase),
            ProgressType::Limited(_) => panic!("mode changed"),
        }
        let out = p.step();
        assert_eq!(out, unlimited_frame(phase > 0, phase));
    }
}

#[test]
fn no_info_annotation() {
    let mut p = Progress {
        current: 0,
        mode: ProgressType::Limited(LimitedType {
            upper: 2,
            display_type: LimitedInfoDisplay::NoInfo,
        }),
    };
    let out = p.step();
    assert_eq!(out, limited_frame(false, "", 0));
    let out = p.step();
    assert_eq!(out, limited_frame(true, "", 10));
}

#[test]
fn zero_total_policy() {
    assert_eq!(filled_segments(0, 0), MAX_SEGMENTS);
    assert_eq!(percent_rounded(0, 0), 100);
    let mut p = Progress::wrap(Some(0));
    let out = p.step();
    assert_eq!(out, limited_frame(false, "100%", MAX_SEGMENTS));
}

#[test]
fn percent_rounding() {
    assert_eq!(percent_rounded(0, 5), 0);
    assert_eq!(percent_rounded(1, 3), 33);
    assert_eq!(percent_rounded(2, 3), 67);
    assert_eq!(percent_rounded(1, 2), 50);
    assert_eq!(percent_rounded(1, 200), 1);
    assert_eq!(percent_rounded(1, 201), 0);
    assert_eq!(percent_rounded(5, 5), 100);
}

#[test]
fn filled_monotone() {
    let upper = 7usize;
    let mut previous = 0usize;
    for c in 0..=upper {
        let f = filled_segments(c, upper);
        assert!(f >= previous);
        if c < upper {
            assert!(f < MAX_SEGMENTS);
        }
        previous = f;
    }
    assert_eq!(filled_segments(upper, upper), MAX_SEGMENTS);
}

#[test]
fn decimal_digits() {
    assert_eq!(decimal(0), b"0".to_vec());
    assert_eq!(decimal(9), b"9".to_vec());
    assert_eq!(decimal(10), b"10".to_vec());
    assert_eq!(decimal(12345), b"12345".to_vec());
}

#[test]
fn repeated_bytes() {
    assert_eq!(repeat_byte(61, 3), b"===".to_vec());
    assert_eq!(repeat_byte(32, 0), Vec::<u8>::new());
}

#[test]
fn erase_codes() {
    let mut p = Progress::wrap(Some(2));
    let first = p.step();
    assert!(!first.starts_with(ERASE.as_bytes()));
    let second = p.step();
    assert!(second.starts_with(ERASE.as_bytes()));
}

#[test]
fn bar_line_keeps_no_closing_bracket() {
    let mut p = Progress::wrap(Some(2));
    p.step();
    let out = p.step();
    let text = String::from_utf8(out).unwrap();
    let bar_line = text.trim_end_matches('\n').rsplit('\n').next().unwrap();
    assert_eq!(bar_line, "[==========");
}

#[test]
fn can_step_bounds() {
    assert!(Progress::wrap(Some(1000)).can_step());
    assert!(Progress::wrap(None).can_step());

    let exhausted = Progress {
        current: usize::MAX,
        mode: ProgressType::Unlimited(UnlimitedType { animation_pos: 0 }),
    };
    assert!(!exhausted.can_step());

    let oversized = Progress {
        current: 0,
        mode: ProgressType::Limited(LimitedType {
            upper: usize::MAX,
            display_type: LimitedInfoDisplay::Percent,
        }),
    };
    assert!(!oversized.can_step());
}
