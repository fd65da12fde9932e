use marquee::render::{marquee, marquee_at, render, visible_window, RenderConfig, RenderError};
use marquee::segment::{copy_clusters, join_clusters};
use std::time::Duration;
use unicode_segmentation::UnicodeSegmentation;

const MARKER: &str = "\u{2062}";

fn frame(visible: &str) -> String {
    format!("{}{}", visible, MARKER)
}

fn strings(parts: &[&str]) -> Vec<String> {
    parts.iter().map(|p| p.to_string()).collect()
}

fn at(message: &str, width: usize, ms: u64, delay: u64, tick_ms: u128) -> String {
    marquee(message.to_string(), width, Duration::from_millis(ms), delay, tick_ms)
}

#[test]
fn scrolls_one_cluster_per_tick() {
    assert_eq!(at("ABCDE", 3, 0, 0, 1), frame("ABC"));
    assert_eq!(at("ABCDE", 3, 1, 0, 1), frame("BCD"));
    assert_eq!(at("ABCDE", 3, 3, 0, 1), frame("DE "));
    assert_eq!(at("ABCDE", 3, 4, 0, 1), frame("E |"));
}

#[test]
fn wraps_round_the_end_of_the_loop_buffer() {
    assert_eq!(at("ABCDE", 3, 5, 0, 1), frame(" | "));
    assert_eq!(at("ABCDE", 3, 6, 0, 1), frame("| A"));
    assert_eq!(at("ABCDE", 3, 7, 0, 1), frame(" AB"));
    assert_eq!(at("ABCDE", 3, 8, 0, 1), frame("ABC"));
}

#[test]
fn same_arguments_same_output() {
    let a = at("Hello, wide world", 5, 12_345, 3, 500);
    let b = at("Hello, wide world", 5, 12_345, 3, 500);
    assert_eq!(a, b);
    assert_eq!(a.as_bytes(), b.as_bytes());
}

#[test]
fn short_message_is_returned_unchanged() {
    assert_eq!(at("abc", 3, 0, 0, 1), "abc");
    assert_eq!(at("abc", 3, 99_999, 2, 7), "abc");
    assert_eq!(at("ab", 25, 1_000, 3, 500), "ab");
    assert_eq!(at("", 1, 1_000, 3, 500), "");
}

#[test]
fn message_one_cluster_too_long_is_animated() {
    assert_eq!(at("abcd", 3, 0, 0, 1), frame("abc"));
    assert_eq!(at("abcd", 3, 6, 0, 1), frame(" ab"));
}

#[test]
fn fit_is_measured_in_clusters_not_bytes() {
    // Two clusters in four bytes: fits a display of two.
    assert_eq!("éé".len(), 4);
    assert_eq!(at("éé", 2, 5, 0, 1), "éé");
    // Two flags in sixteen bytes: fits a display of two, not a display of one.
    let flags = "🇷🇺🇸🇹";
    assert_eq!(flags.len(), 16);
    assert_eq!(at(flags, 2, 5, 0, 1), flags);
    assert_eq!(at(flags, 1, 0, 0, 1), frame("🇷🇺"));
    assert_eq!(at(flags, 1, 1, 0, 1), frame("🇸🇹"));
}

#[test]
fn hold_phase_shows_the_start() {
    for ms in [0u64, 1, 499, 500, 1_000, 1_499] {
        assert_eq!(at("0123456789", 4, ms, 3, 500), frame("0123"));
    }
    // The first tick after the hold still starts at cluster 0.
    assert_eq!(at("0123456789", 4, 1_500, 3, 500), frame("0123"));
    assert_eq!(at("0123456789", 4, 2_000, 3, 500), frame("1234"));
}

#[test]
fn phases_of_one_cycle_with_hold() {
    let tick = |t: u64| at("0123456789", 4, t * 500, 3, 500);
    assert_eq!(tick(11), frame("89 |"));
    assert_eq!(tick(12), frame("9 | "));
    assert_eq!(tick(13), frame(" | 0"));
    assert_eq!(tick(14), frame("| 01"));
    assert_eq!(tick(15), frame(" 012"));
    assert_eq!(tick(16), frame("0123"));
    assert_eq!(tick(20), frame("1234"));
}

#[test]
fn tick_is_elapsed_divided_by_tick_duration() {
    assert_eq!(at("ABCDE", 3, 999, 0, 500), frame("BCD"));
    assert_eq!(at("ABCDE", 3, 1_000, 0, 500), frame("CDE"));
    assert_eq!(at("ABCDE", 3, 1_499, 0, 500), frame("CDE"));
}

#[test]
fn position_is_read_in_whole_milliseconds() {
    let two_seconds = marquee("ABCDE".to_string(), 3, Duration::from_secs(2), 0, 500);
    assert_eq!(two_seconds, frame("E |"));
    let just_under = marquee("ABCDE".to_string(), 3, Duration::from_micros(2_999), 0, 1);
    assert_eq!(just_under, frame("CDE"));
}

#[test]
fn animation_is_periodic() {
    // 8 clusters in the loop buffer, 2 ticks of hold, 500 ms per tick.
    let period_ms: u64 = (8 + 2) * 500;
    for t in [0u64, 120, 500, 1_700, 3_210, 4_999] {
        let now = at("ABCDE", 3, t, 2, 500);
        for k in [1u64, 2, 7, 1_000] {
            assert_eq!(at("ABCDE", 3, t + k * period_ms, 2, 500), now);
        }
    }
}

#[test]
fn window_has_display_width_clusters_in_every_phase() {
    let message = "e\u{301}a\u{310}🇩🇪xyz한글o\u{308}\u{332}";
    for width in 1usize..9 {
        for t in 0u64..40 {
            let out = at(message, width, t, 3, 1);
            let visible = out.strip_suffix(MARKER).expect("animated frames end with the marker");
            assert_eq!(visible.graphemes(true).count(), width);
            assert!(out.graphemes(true).count() <= width + 1);
        }
    }
}

#[test]
fn windows_hold_whole_clusters_only() {
    let message = "🇷🇺🇸🇹🇩🇪";
    assert_eq!(at(message, 2, 0, 0, 1), frame("🇷🇺🇸🇹"));
    assert_eq!(at(message, 2, 1, 0, 1), frame("🇸🇹🇩🇪"));
    assert_eq!(at(message, 2, 2, 0, 1), frame("🇩🇪 "));
    assert_eq!(at(message, 2, 5, 0, 1), frame(" 🇷🇺"));
    let marks = "a\u{310}e\u{301}o\u{308}\u{332}";
    assert_eq!(at(marks, 1, 0, 0, 1), frame("a\u{310}"));
    assert_eq!(at(marks, 1, 1, 0, 1), frame("e\u{301}"));
    assert_eq!(at(marks, 1, 2, 0, 1), frame("o\u{308}\u{332}"));
    assert_eq!(at(marks, 2, 5, 0, 1), frame(" a\u{310}"));
}

#[test]
fn marquee_at_takes_milliseconds() {
    assert_eq!(marquee_at("ABCDE".to_string(), 3, 7, 0, 1), frame(" AB"));
    assert_eq!(marquee_at("ABCDE".to_string(), 3, 0, 0, 1), frame("ABC"));
    assert_eq!(marquee_at("ABC".to_string(), 3, 7, 0, 1), "ABC");
    // Far past what 64 bits of ticks hold: u128::MAX mod 8 is 7.
    assert_eq!(marquee_at("ABCDE".to_string(), 3, u128::MAX, 0, 1), frame(" AB"));
}

#[test]
fn hold_may_be_as_long_as_the_type_allows() {
    assert_eq!(marquee_at("ABCDE".to_string(), 3, 1_000_000, u64::MAX, 1), frame("ABC"));
}

#[test]
fn visible_window_three_phases() {
    let buffer = strings(&["A", "B", "C", "D", "E", " ", "|", " "]);
    assert_eq!(visible_window(&buffer, 3, 0, 2), strings(&["A", "B", "C"]));
    assert_eq!(visible_window(&buffer, 3, 1, 2), strings(&["A", "B", "C"]));
    assert_eq!(visible_window(&buffer, 3, 2, 2), strings(&["A", "B", "C"]));
    assert_eq!(visible_window(&buffer, 3, 3, 2), strings(&["B", "C", "D"]));
    assert_eq!(visible_window(&buffer, 3, 6, 2), strings(&["E", " ", "|"]));
    assert_eq!(visible_window(&buffer, 3, 7, 2), strings(&[" ", "|", " "]));
    assert_eq!(visible_window(&buffer, 3, 9, 2), strings(&[" ", "A", "B"]));
    assert_eq!(visible_window(&buffer, 3, 10, 2), strings(&["A", "B", "C"]));
}

#[test]
fn visible_window_of_nothing_is_empty() {
    let none: Vec<String> = Vec::new();
    assert_eq!(visible_window(&none, 3, 0, 0), Vec::<String>::new());
    assert_eq!(visible_window(&none, 3, 17, 4), Vec::<String>::new());
}

#[test]
fn visible_window_wider_than_the_buffer() {
    let buffer = strings(&["a", "b"]);
    assert_eq!(visible_window(&buffer, 5, 0, 1), strings(&["a", "b"]));
    assert_eq!(visible_window(&buffer, 5, 0, 0), strings(&["a", "b", "a"]));
    assert_eq!(visible_window(&buffer, 5, 1, 0), strings(&["b"]));
    assert_eq!(visible_window(&buffer, 0, 1, 0), Vec::<String>::new());
}

#[test]
fn copy_clusters_copies_a_range() {
    let buffer = strings(&["a", "bc", "d", "e\u{301}"]);
    assert_eq!(copy_clusters(&buffer, 1, 3), strings(&["bc", "d"]));
    assert_eq!(copy_clusters(&buffer, 0, 4), buffer);
    assert_eq!(copy_clusters(&buffer, 2, 2), Vec::<String>::new());
}

#[test]
fn join_clusters_puts_them_in_a_row() {
    assert_eq!(join_clusters(&strings(&["a", "bc", "", "e\u{301}"])), "abce\u{301}");
    assert_eq!(join_clusters(&Vec::new()), "");
}

#[test]
fn default_configuration() {
    let config = RenderConfig::default();
    assert_eq!(config.display_width, 25);
    assert_eq!(config.hold_ticks, 3);
    assert_eq!(config.tick_duration_ms, 500);
}

#[test]
fn render_refuses_a_zero_width() {
    let config = RenderConfig { display_width: 0, hold_ticks: 3, tick_duration_ms: 500 };
    assert_eq!(render(&config, "abc".to_string(), Duration::ZERO), Err(RenderError::ZeroWidth));
    let both = RenderConfig { display_width: 0, hold_ticks: 3, tick_duration_ms: 0 };
    assert_eq!(render(&both, "abc".to_string(), Duration::ZERO), Err(RenderError::ZeroWidth));
}

#[test]
fn render_refuses_a_zero_tick_duration() {
    let config = RenderConfig { display_width: 2, hold_ticks: 3, tick_duration_ms: 0 };
    assert_eq!(
        render(&config, "abc".to_string(), Duration::ZERO),
        Err(RenderError::ZeroTickDuration)
    );
    assert_eq!(render(&config, "a".to_string(), Duration::ZERO), Err(RenderError::ZeroTickDuration));
}

#[test]
fn render_is_marquee_under_a_valid_configuration() {
    let config = RenderConfig { display_width: 4, hold_ticks: 3, tick_duration_ms: 500 };
    for ms in [0u64, 1_500, 2_000, 6_000, 7_700] {
        let elapsed = Duration::from_millis(ms);
        assert_eq!(
            render(&config, "0123456789".to_string(), elapsed),
            Ok(marquee("0123456789".to_string(), 4, elapsed, 3, 500))
        );
    }
    assert_eq!(
        render(&config, "0123456789".to_string(), Duration::from_millis(6_500)),
        Ok(frame(" | 0"))
    );
}

#[test]
fn render_error_messages() {
    assert_eq!(RenderError::ZeroWidth.message(), "display width must be at least 1");
    assert_eq!(RenderError::ZeroTickDuration.message(), "tick duration must be at least 1 ms");
}
