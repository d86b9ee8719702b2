use ratzgo::scroll::{
    repos_x, repos_y, repos_y_anchored, scroll_horizontal, scroll_vertical, scroll_vertical_anchored,
    ScrollAction,
};

fn float_percent(viewport: u16, n: i16) -> i16 {
    (viewport as f32 * n as f32 * 0.01) as i16
}

#[test]
fn repos_y_zero_viewport_is_top() {
    assert_eq!(repos_y(17, 100, 0), 0);
    assert_eq!(repos_x(17, 100, 0), 0);
}

#[test]
fn repos_y_clamps_to_last_page() {
    assert_eq!(repos_y(95, 100, 10), 90);
    assert_eq!(repos_y(50, 100, 10), 50);
    assert_eq!(repos_y(5, 8, 10), 0);
    assert_eq!(repos_x(40, 30, 25), 5);
}

#[test]
fn repos_y_narrows_the_largest_offset() {
    // 70_001 - 1 = 70_000 lines of slack, narrowed to u16: 70_000 - 65_536.
    assert_eq!(repos_y(10_000, 70_001, 1), 4_464);
    assert_eq!(repos_y(100, 70_001, 1), 100);
}

#[test]
fn repos_y_is_idempotent_on_samples() {
    for height in [0usize, 1, 5, 40, 1000, 70_000] {
        for vh in [0u16, 1, 3, 40, 65535] {
            for s in [0u16, 1, 7, 39, 500, 65535] {
                let once = repos_y(s, height, vh);
                assert_eq!(repos_y(once, height, vh), once);
            }
        }
    }
}

#[test]
fn anchored_keeps_anchor_in_view() {
    // viewport of 10 lines over 100 lines, threshold 2.
    assert_eq!(repos_y_anchored(0, 100, 10, 2, 50), 43);
    assert_eq!(repos_y_anchored(60, 100, 10, 2, 50), 48);
    assert_eq!(repos_y_anchored(45, 100, 10, 2, 50), 45);
    assert_eq!(repos_y_anchored(0, 100, 10, 2, 99), 90);
    assert_eq!(repos_y_anchored(30, 100, 10, 2, 1), 0);
    assert_eq!(repos_y_anchored(3, 5, 10, 2, 4), 0);
    assert_eq!(repos_y_anchored(3, 50, 0, 2, 4), 0);
}

#[test]
fn anchored_threshold_is_capped_by_viewport() {
    // threshold 100 in a viewport of 4 is taken as 3.
    assert_eq!(repos_y_anchored(10, 100, 4, 100, 20), 20);
}

fn anchored_model(scroll_y: u16, height: usize, vh: u16, threshold: u16, anchor: usize) -> u16 {
    let vh = vh as u128;
    if vh == 0 {
        return 0;
    }
    let t = (threshold as u128).min(vh - 1);
    let height = height as u128;
    if height <= vh {
        return 0;
    }
    let anchor = anchor as u128;
    let mut s = scroll_y as u128;
    if anchor < s + t {
        s = anchor.saturating_sub(t);
    }
    let room = vh - 1 - t;
    if anchor > s + room {
        s = anchor - room;
    }
    (s.min(height - vh) % 65536) as u16
}

#[test]
fn anchored_matches_model_on_a_grid() {
    for height in [0usize, 3, 10, 11, 64, 200, 70_000, usize::MAX] {
        for vh in [0u16, 1, 2, 5, 10, 300] {
            for t in [0u16, 1, 3, 9, 1000] {
                for s in [0u16, 4, 60, 190, 65535] {
                    for anchor in [0usize, 1, 9, 50, 199, 69_999, usize::MAX - 1] {
                        assert_eq!(
                            repos_y_anchored(s, height, vh, t, anchor),
                            anchored_model(s, height, vh, t, anchor),
                            "{s} {height} {vh} {t} {anchor}"
                        );
                    }
                }
            }
        }
    }
}

#[test]
fn viewport_offset_agrees_with_float_percentage() {
    let viewports = [0u16, 1, 2, 3, 7, 10, 24, 33, 50, 99, 100, 101, 333, 1000, 4096, 32767, 32768, 50000, 65535];
    for v in viewports {
        for n in i16::MIN..=i16::MAX {
            assert_eq!(ScrollAction::Viewport(n).offset(v), float_percent(v, n), "{v} {n}");
        }
    }
    let percents = [i16::MIN, -32767, -1000, -200, -100, -99, -51, -50, -49, -1, 0, 1, 33, 49, 50, 51, 99, 100, 101, 150, 200, 1000, i16::MAX];
    for n in percents {
        for v in 0..=u16::MAX {
            assert_eq!(ScrollAction::Viewport(n).offset(v), float_percent(v, n), "{v} {n}");
        }
    }
}

#[test]
fn fixed_offset_is_the_amount() {
    assert_eq!(ScrollAction::Fixed(-7).offset(30), -7);
    assert_eq!(ScrollAction::Fixed(12).offset(0), 12);
}

#[test]
fn scroll_vertical_moves_and_clamps() {
    assert_eq!(scroll_vertical(ScrollAction::Fixed(3), 10, 100, 20), 13);
    assert_eq!(scroll_vertical(ScrollAction::Fixed(-30), 10, 100, 20), 0);
    assert_eq!(scroll_vertical(ScrollAction::Fixed(100), 10, 100, 20), 80);
    assert_eq!(scroll_vertical(ScrollAction::Viewport(50), 10, 100, 20), 20);
    assert_eq!(scroll_vertical(ScrollAction::Viewport(-100), 50, 100, 20), 30);
    assert_eq!(scroll_vertical(ScrollAction::Fixed(i16::MAX), 65535, usize::MAX, 1), 65534);
}

#[test]
fn scroll_horizontal_moves_and_clamps() {
    assert_eq!(scroll_horizontal(ScrollAction::Fixed(5), 0, 30, 10), 5);
    assert_eq!(scroll_horizontal(ScrollAction::Viewport(200), 0, 30, 10), 20);
    assert_eq!(scroll_horizontal(ScrollAction::Fixed(-1), 0, 30, 10), 0);
}

#[test]
fn scroll_vertical_anchored_follows_anchor() {
    assert_eq!(scroll_vertical_anchored(ScrollAction::Fixed(1), 0, 100, 10, 2, 0), 0);
    assert_eq!(scroll_vertical_anchored(ScrollAction::Fixed(20), 0, 100, 10, 2, 5), 3);
    assert_eq!(scroll_vertical_anchored(ScrollAction::Viewport(100), 0, 100, 10, 0, 15), 10);
}

#[test]
fn scroll_round_trip_inside_content() {
    let there = scroll_vertical(ScrollAction::Fixed(9), 4, 100, 10);
    assert_eq!(there, 13);
    assert_eq!(scroll_vertical(ScrollAction::Fixed(-9), there, 100, 10), 4);
}
