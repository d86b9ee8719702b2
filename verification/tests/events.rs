use ratzgo::event::debounce::{DebounceSlot, VersionCounter};
use ratzgo::event::event_loop::{plan_step, route_input, InputEvent, LoopStep, Route, TerminalInput, Wakeup};
use ratzgo::event::queue::MessageBuffer;
use ratzgo::event::select::{retire_source, settle_round, sweep_sources};
use ratzgo::layout::Position;
use ratzgo::utils::future::ok_or_pending;

fn round(sources: Vec<char>, exhausted: &[bool]) -> Vec<char> {
    let mut sources = sources;
    let mut retired = 0;
    for (i, &ended) in exhausted.iter().enumerate() {
        if ended {
            retire_source(&mut sources, i);
            retired += 1;
        }
    }
    sweep_sources(&mut sources, retired);
    sources
}

#[test]
fn round_drops_ended_sources_in_order() {
    let s = vec!['a', 'b', 'c', 'd', 'e'];
    assert_eq!(round(s.clone(), &[false, true, false, true]), vec!['a', 'c', 'e']);
    assert_eq!(round(s.clone(), &[true, true, true, true, true]), Vec::<char>::new());
    assert_eq!(round(s.clone(), &[]), s);
    assert_eq!(round(s.clone(), &[true]), vec!['b', 'c', 'd', 'e']);
}

#[test]
fn settle_round_keeps_live_sources() {
    let mut s = vec!['a', 'b', 'c', 'd', 'e'];
    settle_round(&mut s, &vec![true, false, true]);
    assert_eq!(s, vec!['b', 'd', 'e']);
    let mut t = vec![1, 2];
    settle_round(&mut t, &vec![]);
    assert_eq!(t, vec![1, 2]);
    let mut u = vec![1, 2];
    settle_round(&mut u, &vec![true, true]);
    assert_eq!(u, Vec::<i32>::new());
}

#[test]
fn retire_moves_to_front() {
    let mut s = vec![1, 2, 3, 4];
    retire_source(&mut s, 2);
    assert_eq!(s, vec![3, 1, 2, 4]);
    sweep_sources(&mut s, 1);
    assert_eq!(s, vec![1, 2, 4]);
}

#[test]
fn queue_is_first_in_first_out() {
    let mut q = MessageBuffer::new();
    q.push(1);
    q.push(2);
    q.push(3);
    assert_eq!(q.len(), 3);
    assert_eq!(q.pop(), Some(1));
    q.push(4);
    assert_eq!(q.pop(), Some(2));
    assert_eq!(q.pop(), Some(3));
    assert_eq!(q.pop(), Some(4));
    assert_eq!(q.pop(), None);
}

#[test]
fn versions_count_tasks() {
    let mut c = VersionCounter::new();
    assert_eq!(c.version(), u32::MAX);
    assert_eq!(c.next_version(), 0);
    let v = c.begin();
    assert_eq!(v, 0);
    assert_eq!(c.version(), 0);
    assert_eq!(c.begin(), 1);
    assert_eq!(c.next_version(), 2);
}

#[test]
fn debounce_slot_keeps_latest() {
    let mut slot = DebounceSlot::new();
    assert!(!slot.is_waiting());
    slot.offer("first");
    slot.offer("second");
    assert!(slot.is_waiting());
    assert_eq!(slot.take_due(), Some("second"));
    assert_eq!(slot.take_due(), None);
}

#[test]
fn routes_terminal_input() {
    assert!(matches!(route_input::<u8, ()>(InputEvent::Key(7)), Route::Key(7)));
    assert!(matches!(
        route_input::<u8, ()>(InputEvent::Mouse { left_button_down: true, column: 3, row: 4 }),
        Route::Click(Position { x: 3, y: 4 })
    ));
    assert!(matches!(
        route_input::<u8, ()>(InputEvent::Mouse { left_button_down: false, column: 3, row: 4 }),
        Route::Ignore
    ));
    assert!(matches!(route_input::<u8, &str>(InputEvent::Paste("x")), Route::Paste("x")));
    assert!(matches!(route_input::<u8, ()>(InputEvent::Other), Route::Ignore));
}

#[test]
fn plans_loop_steps() {
    assert!(matches!(plan_step::<u8>(Wakeup::Terminal(TerminalInput::Resized)), LoopStep::Redraw));
    assert!(matches!(plan_step(Wakeup::Terminal(TerminalInput::Handled(Some(5u8)))), LoopStep::Enqueue(5)));
    assert!(matches!(plan_step::<u8>(Wakeup::Terminal(TerminalInput::Handled(None))), LoopStep::Rebuild));
    assert!(matches!(plan_step::<u8>(Wakeup::Terminal(TerminalInput::Failed)), LoopStep::Skip));
    assert!(matches!(plan_step::<u8>(Wakeup::Terminal(TerminalInput::Ended)), LoopStep::Stop));
    assert!(matches!(plan_step(Wakeup::Queued(1u8)), LoopStep::Update(1)));
    assert!(matches!(plan_step(Wakeup::Sourced(2u8)), LoopStep::Update(2)));
}

#[test]
fn ok_or_pending_drops_failures() {
    assert_eq!(ok_or_pending::<u8, ()>(Some(Ok(3))), Some(Some(3)));
    assert_eq!(ok_or_pending::<u8, ()>(Some(Err(()))), None);
    assert_eq!(ok_or_pending::<u8, ()>(None), Some(None));
}
