use tclock::mode::{DisplayMode, SizeTier};

fn advanced(mut m: DisplayMode) -> DisplayMode {
    m.advance();
    m
}

#[test]
fn advance_walks_the_five_states() {
    let m0 = DisplayMode { tier: SizeTier::Full, analog: false };
    let m1 = advanced(m0);
    assert_eq!(m1, DisplayMode { tier: SizeTier::Half, analog: false });
    let m2 = advanced(m1);
    assert_eq!(m2, DisplayMode { tier: SizeTier::Quadrant, analog: false });
    let m3 = advanced(m2);
    assert_eq!(m3, DisplayMode { tier: SizeTier::Sextant, analog: false });
    let m4 = advanced(m3);
    assert_eq!(m4, DisplayMode { tier: SizeTier::Sextant, analog: true });
    let m5 = advanced(m4);
    assert_eq!(m5, m0);
}

#[test]
fn advance_five_times_is_identity_on_reachable_modes() {
    let starts = [
        DisplayMode { tier: SizeTier::Full, analog: false },
        DisplayMode { tier: SizeTier::Half, analog: false },
        DisplayMode { tier: SizeTier::Quadrant, analog: false },
        DisplayMode { tier: SizeTier::Sextant, analog: false },
        DisplayMode { tier: SizeTier::Sextant, analog: true },
    ];
    for start in starts {
        let mut m = start;
        for _ in 0..5 {
            m.advance();
        }
        assert_eq!(m, start);
    }
}

#[test]
fn advance_from_sextant_digital_enters_analog() {
    let mut m = DisplayMode { tier: SizeTier::Sextant, analog: false };
    m.advance();
    assert!(m.analog);
}

#[test]
fn advance_from_analog_restores_full_digital() {
    let mut m = DisplayMode { tier: SizeTier::Sextant, analog: true };
    m.advance();
    assert_eq!(m, DisplayMode { tier: SizeTier::Full, analog: false });
}

#[test]
fn force_digital_clears_the_flag_and_keeps_the_tier() {
    let mut m = DisplayMode { tier: SizeTier::Sextant, analog: true };
    m.force_digital();
    assert_eq!(m, DisplayMode { tier: SizeTier::Sextant, analog: false });
    let mut d = DisplayMode { tier: SizeTier::Half, analog: false };
    d.force_digital();
    assert_eq!(d, DisplayMode { tier: SizeTier::Half, analog: false });
}

#[test]
fn default_mode_is_digital_quadrant() {
    assert_eq!(
        DisplayMode::default(),
        DisplayMode { tier: SizeTier::Quadrant, analog: false }
    );
}

#[test]
fn from_name_knows_the_five_names() {
    assert_eq!(
        DisplayMode::from_name("full"),
        Some(DisplayMode { tier: SizeTier::Full, analog: false })
    );
    assert_eq!(
        DisplayMode::from_name("half"),
        Some(DisplayMode { tier: SizeTier::Half, analog: false })
    );
    assert_eq!(
        DisplayMode::from_name("quadrant"),
        Some(DisplayMode { tier: SizeTier::Quadrant, analog: false })
    );
    assert_eq!(
        DisplayMode::from_name("sextant"),
        Some(DisplayMode { tier: SizeTier::Sextant, analog: false })
    );
    assert_eq!(
        DisplayMode::from_name("analog"),
        Some(DisplayMode { tier: SizeTier::Quadrant, analog: true })
    );
}

#[test]
fn from_name_rejects_anything_else() {
    assert_eq!(DisplayMode::from_name(""), None);
    assert_eq!(DisplayMode::from_name("Full"), None);
    assert_eq!(DisplayMode::from_name("fullsize"), None);
    assert_eq!(DisplayMode::from_name("octant"), None);
}
