use netflux::theme::{COLOR_ACTIVE, COLOR_DOWN_LINE, COLOR_PEAK, COLOR_TEXT_GRAY};
use netflux::{icon_label, icon_rgba, label_metrics, tier_color, IconGenerator, SpeedTier, TrayIconGenerator};

#[test]
fn label_rounds_down_to_whole_units() {
    assert_eq!(icon_label(999), ("999".to_string(), "B".to_string()));
    assert_eq!(icon_label(1023), ("1023".to_string(), "B".to_string()));
    assert_eq!(icon_label(2047), ("1".to_string(), "KB".to_string()));
    assert_eq!(icon_label(5 * 1_048_576 + 1), ("5".to_string(), "MB".to_string()));
    assert_eq!(icon_label(3 * 1_073_741_824), ("3".to_string(), "GB".to_string()));
}

#[test]
fn metrics_by_label_length() {
    assert_eq!(label_metrics(1), (-22, -5));
    assert_eq!(label_metrics(2), (-18, -3));
    assert_eq!(label_metrics(3), (-14, -1));
    assert_eq!(label_metrics(0), (-14, -1));
}

#[test]
fn rgba_makes_drawn_pixels_opaque() {
    let out = icon_rgba(&vec![0, 0x0011_2233, 0xff11_2233, 0x0000_0001]);
    assert_eq!(
        out,
        vec![0, 0, 0, 0, 0x11, 0x22, 0x33, 0xff, 0x11, 0x22, 0x33, 0xff, 0, 0, 1, 0xff]
    );
}

#[test]
fn icon_history_scale() {
    let mut g = IconGenerator::new();
    assert_eq!(g.history.capacity(), 32);
    assert_eq!(g.record(0), 1);
    assert_eq!(g.record(500), 500);
    assert_eq!(g.record(200), 500);
    for _ in 0..40 {
        g.record(7);
    }
    assert_eq!(g.history.len(), 32);
    assert_eq!(g.record(7), 7);
}

#[test]
fn tier_colors_are_distinct() {
    assert_eq!(tier_color(SpeedTier::Idle), COLOR_TEXT_GRAY);
    assert_eq!(tier_color(SpeedTier::Load), COLOR_DOWN_LINE);
    assert_eq!(tier_color(SpeedTier::Active), COLOR_ACTIVE);
    assert_eq!(tier_color(SpeedTier::Peak), COLOR_PEAK);
}

#[test]
fn tray_text_color_follows_tier() {
    assert_eq!(TrayIconGenerator::text_color(99_999), COLOR_TEXT_GRAY);
    assert_eq!(TrayIconGenerator::text_color(100_000), COLOR_DOWN_LINE);
    assert_eq!(TrayIconGenerator::text_color(5 * 1_048_576), COLOR_ACTIVE);
    assert_eq!(TrayIconGenerator::text_color(20 * 1_048_576), COLOR_PEAK);
}
