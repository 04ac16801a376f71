use tclock::geometry::{analog_geometry, digital_rect, tier_footprint, Rect};
use tclock::mode::SizeTier;

const TIERS: [SizeTier; 4] =
    [SizeTier::Full, SizeTier::Half, SizeTier::Quadrant, SizeTier::Sextant];

#[test]
fn tier_footprints_match_the_table() {
    assert_eq!(tier_footprint(SizeTier::Full), (9, 65));
    assert_eq!(tier_footprint(SizeTier::Half), (9, 34));
    assert_eq!(tier_footprint(SizeTier::Quadrant), (6, 34));
    assert_eq!(tier_footprint(SizeTier::Sextant), (5, 34));
}

#[test]
fn digital_rect_centers_the_full_tier() {
    let screen = Rect { x: 0, y: 0, width: 100, height: 40 };
    let r = digital_rect(screen, SizeTier::Full);
    assert_eq!(r, Rect { x: 17, y: 15, width: 65, height: 9 });
}

#[test]
fn digital_rect_respects_a_screen_offset() {
    let screen = Rect { x: 5, y: 7, width: 40, height: 10 };
    let r = digital_rect(screen, SizeTier::Quadrant);
    assert_eq!(r, Rect { x: 5 + 3, y: 7 + 2, width: 34, height: 6 });
}

#[test]
fn digital_rect_clamps_to_a_small_screen() {
    let screen = Rect { x: 0, y: 0, width: 10, height: 3 };
    for tier in TIERS {
        let r = digital_rect(screen, tier);
        assert_eq!(r, Rect { x: 0, y: 0, width: 10, height: 3 });
    }
}

#[test]
fn digital_rect_never_leaves_the_screen() {
    for width in 1..=500u16 {
        for height in 1..=500u16 {
            let screen = Rect { x: 0, y: 0, width, height };
            for tier in TIERS {
                let r = digital_rect(screen, tier);
                assert!(r.x + r.width <= width);
                assert!(r.y + r.height <= height);
            }
        }
    }
}

#[test]
fn analog_geometry_of_a_normal_screen() {
    let g = analog_geometry(Rect { x: 0, y: 0, width: 80, height: 24 }, SizeTier::Quadrant);
    assert_eq!(g.right, 80);
    assert_eq!(g.top, 2 * 24 - 4);
    assert_eq!(g.shorter_axis, 44);
    assert_eq!(g.longer_axis, 80);
    assert!(g.axis_is_vertical_short);
    assert_eq!(g.origin_x_halves, 80);
    assert_eq!(g.origin_y_halves, 44);
    assert_eq!(g.hour_scale_twentieths, 6 * 44);
    assert_eq!(g.second_scale_twentieths, 8 * 44);
    assert_eq!(g.minute_scale_twentieths, 9 * 44);
    assert_eq!(g.content_rect, Rect { x: 23, y: 9, width: 34, height: 6 });
}

#[test]
fn analog_geometry_with_a_tall_screen_has_the_horizontal_axis_short() {
    let g = analog_geometry(Rect { x: 0, y: 0, width: 30, height: 50 }, SizeTier::Full);
    assert_eq!(g.top, 96);
    assert_eq!(g.shorter_axis, 30);
    assert_eq!(g.longer_axis, 96);
    assert!(!g.axis_is_vertical_short);
}

#[test]
fn hand_scales_are_ordered_hour_second_minute() {
    let g = analog_geometry(Rect { x: 0, y: 0, width: 80, height: 24 }, SizeTier::Full);
    assert!(0 < g.hour_scale_twentieths);
    assert!(g.hour_scale_twentieths < g.second_scale_twentieths);
    assert!(g.second_scale_twentieths < g.minute_scale_twentieths);
}

#[test]
fn analog_geometry_of_a_zero_width_screen_is_degenerate_not_broken() {
    let g = analog_geometry(Rect { x: 0, y: 0, width: 0, height: 24 }, SizeTier::Full);
    assert_eq!(g.right, 0);
    assert_eq!(g.shorter_axis, 0);
    assert_eq!(g.hour_scale_twentieths, 0);
    assert_eq!(g.second_scale_twentieths, 0);
    assert_eq!(g.minute_scale_twentieths, 0);
}

#[test]
fn analog_geometry_of_a_zero_height_screen_is_degenerate_not_broken() {
    let g = analog_geometry(Rect { x: 0, y: 0, width: 80, height: 0 }, SizeTier::Full);
    assert_eq!(g.top, -4);
    assert_eq!(g.shorter_axis, -4);
    assert_eq!(g.longer_axis, 80);
    assert_eq!(g.hour_scale_twentieths, 0);
    assert_eq!(g.second_scale_twentieths, 0);
    assert_eq!(g.minute_scale_twentieths, 0);
}

#[test]
fn analog_geometry_of_a_one_by_one_screen() {
    let g = analog_geometry(Rect { x: 0, y: 0, width: 1, height: 1 }, SizeTier::Sextant);
    assert_eq!(g.top, -2);
    assert_eq!(g.shorter_axis, -2);
    assert_eq!(g.hour_scale_twentieths, 0);
    assert_eq!(g.minute_scale_twentieths, 0);
}
