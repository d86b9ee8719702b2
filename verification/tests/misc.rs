use ratzgo::base::action::filter_map::FilterMap;
use ratzgo::base::action::map::KeyMap;
use ratzgo::base::action::on_key::OnKey;
use ratzgo::base::Activable;
use ratzgo::component::map_message::MapMessage;
use ratzgo::component::scrollbar::{scrollbar_metrics, ScrollbarMetrics, ScrollbarParams};
use ratzgo::base::Area;
use ratzgo::layout::Rect;
use ratzgo::log::Level;

type Cond = Box<dyn FnOnce(&char) -> bool>;
type Func = Box<dyn FnOnce(&char) -> Option<u32>>;

#[test]
fn level_names() {
    assert_eq!(Level::error().as_str(), "error");
    assert_eq!(Level::warn().as_str(), "warn");
    assert_eq!(Level::info().as_str(), "info");
    assert_eq!(Level::debug().as_str(), "debug");
    assert_eq!(Level::trace().as_str(), "trace");
    assert!(Level::error() < Level::trace());
}

#[test]
fn filter_map_first_match_wins() {
    let mut f: FilterMap<Cond, u32> = FilterMap::new();
    f.on_key(Box::new(|k: &char| *k == 'a'), 1);
    f.on_key(Box::new(|k: &char| k.is_alphabetic()), 2);
    f.on_key(Box::new(|_: &char| true), 3);
    assert_eq!(f.key(&'b'), Some(2));

    let mut g: FilterMap<Cond, u32> = FilterMap::new();
    g.on_key(Box::new(|k: &char| *k == 'a'), 1);
    assert_eq!(g.key(&'z'), None);
}

#[test]
fn on_key_is_used_once() {
    let mut o: OnKey<Cond, Func, u32> = OnKey::default();
    assert_eq!(o.key(&'x'), None);
    o.on_key(Box::new(|k: &char| *k == 'q'), 9);
    o.on_key(Box::new(|k: &char| *k == 'x'), 8);
    assert_eq!(o.key(&'x'), Some(8));
    assert!(matches!(o, OnKey::Unbound));
    assert_eq!(o.key(&'x'), None);

    let mut m: OnKey<Cond, Func, u32> = OnKey::default();
    m.on_key_with(Box::new(|k: &char| Some(*k as u32)));
    assert_eq!(m.key(&'A'), Some(65));
    assert!(matches!(m, OnKey::Unbound));
}

#[test]
fn key_map_calls_function() {
    let k = KeyMap::new(|c: &char| if *c == 'y' { Some(true) } else { None });
    assert_eq!(k.key(&'y'), Some(true));
}

#[test]
fn map_message_maps() {
    let mut m = MapMessage::new(5u8, |x: u8| x as u32 * 10);
    assert_eq!(m.map(Some(4u8)), Some(40u32));
    assert_eq!(m.map::<u8, u32>(None), None);
    *m.widget_mut() = 6;
    assert_eq!(*m.widget(), 6);
}

struct Toggle {
    on: bool,
}

impl Activable for Toggle {
    fn is_active(&self) -> bool {
        self.on
    }

    fn active_mut(&mut self) -> &mut bool {
        &mut self.on
    }
}

#[test]
fn activable_sets_flag() {
    let t = Toggle { on: false }.active(true);
    assert!(t.on);
    assert!(!t.active(false).on);
}

#[test]
fn scrollbar_metric_values() {
    assert_eq!(
        scrollbar_metrics(100, 10, 95),
        ScrollbarMetrics { position: 90, content_length: 91, viewport_content_length: 10 }
    );
    assert_eq!(
        scrollbar_metrics(5, 10, 3),
        ScrollbarMetrics { position: 0, content_length: 1, viewport_content_length: 10 }
    );
    let params = ScrollbarParams {
        content_length: 50,
        viewport: Area::Literal(Rect { x: 0, y: 0, width: 30, height: 20 }),
        position: 40,
    };
    assert_eq!(
        params.metrics(true),
        Some(ScrollbarMetrics { position: 30, content_length: 31, viewport_content_length: 20 })
    );
    assert_eq!(
        params.metrics(false),
        Some(ScrollbarMetrics { position: 20, content_length: 21, viewport_content_length: 30 })
    );
    let huge = ScrollbarParams {
        content_length: usize::MAX,
        viewport: Area::Literal(Rect { x: 0, y: 0, width: 0, height: 0 }),
        position: 0,
    };
    assert_eq!(huge.metrics(true), None);
}
