use ratzgo::component::border::{border_strip, place_on_border, BorderOrientation};
use ratzgo::component::routing::{any_active, first_active, hit_test, last_active};
use ratzgo::layout::{Position, Rect};

fn ours(r: ratatui_core::layout::Rect) -> Rect {
    Rect { x: r.x, y: r.y, width: r.width, height: r.height }
}

fn theirs(r: Rect) -> ratatui_core::layout::Rect {
    ratatui_core::layout::Rect { x: r.x, y: r.y, width: r.width, height: r.height }
}

#[test]
fn rect_new_clamps_like_ratatui() {
    for (x, y, w, h) in [(0u16, 0u16, 5u16, 5u16), (65530, 3, 10, 2), (4, 65535, 3, 9), (65535, 65535, 65535, 65535)] {
        assert_eq!(Rect::new(x, y, w, h), ours(ratatui_core::layout::Rect::new(x, y, w, h)));
    }
    assert_eq!(Rect::new(65530, 0, 10, 1).width, 5);
}

#[test]
fn border_strips_match_rows_and_columns() {
    let samples = [
        Rect { x: 0, y: 0, width: 10, height: 4 },
        Rect { x: 3, y: 7, width: 1, height: 1 },
        Rect { x: 3, y: 7, width: 0, height: 5 },
        Rect { x: 3, y: 7, width: 5, height: 0 },
        Rect { x: 65530, y: 65533, width: 20, height: 20 },
        Rect { x: 65535, y: 65535, width: 3, height: 3 },
    ];
    for area in samples {
        let r = theirs(area);
        assert_eq!(border_strip(area, BorderOrientation::Top), r.rows().next().map(ours));
        assert_eq!(border_strip(area, BorderOrientation::Bottom), r.rows().next_back().map(ours));
        assert_eq!(border_strip(area, BorderOrientation::Left), r.columns().next().map(ours));
        assert_eq!(border_strip(area, BorderOrientation::Right), r.columns().next_back().map(ours));
    }
}

#[test]
fn border_strip_examples() {
    let area = Rect { x: 2, y: 3, width: 10, height: 4 };
    assert_eq!(border_strip(area, BorderOrientation::Top), Some(Rect { x: 2, y: 3, width: 10, height: 1 }));
    assert_eq!(border_strip(area, BorderOrientation::Bottom), Some(Rect { x: 2, y: 6, width: 10, height: 1 }));
    assert_eq!(border_strip(area, BorderOrientation::Left), Some(Rect { x: 2, y: 3, width: 1, height: 4 }));
    assert_eq!(border_strip(area, BorderOrientation::Right), Some(Rect { x: 11, y: 3, width: 1, height: 4 }));
    assert_eq!(border_strip(Rect { x: 2, y: 3, width: 10, height: 0 }, BorderOrientation::Top), None);
}

#[test]
fn contains_matches_ratatui() {
    let area = Rect { x: 2, y: 3, width: 4, height: 2 };
    for x in 0..10u16 {
        for y in 0..10u16 {
            let p = Position::new(x, y);
            assert_eq!(
                area.contains(p),
                theirs(area).contains(ratatui_core::layout::Position::new(x, y))
            );
        }
    }
    assert_eq!(area.right(), 6);
    assert_eq!(area.bottom(), 5);
}

#[test]
fn picks_first_and_last_active() {
    assert_eq!(first_active(&vec![false, true, true]), Some(1));
    assert_eq!(last_active(&vec![false, true, true, false]), Some(2));
    assert_eq!(first_active(&vec![false, false]), None);
    assert_eq!(last_active(&vec![]), None);
    assert!(any_active(true, &vec![]));
    assert!(any_active(false, &vec![false, true]));
    assert!(!any_active(false, &vec![false, false]));
}

#[test]
fn hit_test_picks_first_containing() {
    let areas = vec![
        Rect { x: 0, y: 0, width: 5, height: 5 },
        Rect { x: 5, y: 0, width: 5, height: 5 },
        Rect { x: 0, y: 0, width: 10, height: 10 },
    ];
    assert_eq!(hit_test(&areas, Position::new(6, 1)), Some(1));
    assert_eq!(hit_test(&areas, Position::new(1, 1)), Some(0));
    assert_eq!(hit_test(&areas, Position::new(1, 7)), Some(2));
    assert_eq!(hit_test(&areas, Position::new(11, 7)), None);
}

#[test]
fn placement_on_border() {
    let area = Rect { x: 2, y: 3, width: 10, height: 4 };
    let placed = place_on_border(area, BorderOrientation::Top, |s: Rect| Some(Rect { x: s.x + 1, width: 3, ..s }));
    assert_eq!(placed, Some(Rect { x: 3, y: 3, width: 3, height: 1 }));
    assert_eq!(place_on_border(area, BorderOrientation::Left, |_: Rect| None), None);
    let mut called = false;
    let empty = Rect { x: 2, y: 3, width: 10, height: 0 };
    assert_eq!(
        place_on_border(empty, BorderOrientation::Bottom, |s: Rect| {
            called = true;
            Some(s)
        }),
        None
    );
    assert!(!called);
}
