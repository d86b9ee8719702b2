use ratzgo::component::{ListState, TableState};
use ratzgo::event::{continuation, plan_after_foreground, record_outcome, Continuation, LoopStep, PollOutcome};
use ratzgo::layout::Rect;

type TuiList = ratatui_widgets::list::ListState;
type TuiTable = ratatui_widgets::table::TableState;

fn list_pair(offset: usize, selected: Option<usize>) -> (ListState, TuiList) {
    (
        ListState::new(offset, selected, Rect::default()),
        TuiList::default().with_offset(offset).with_selected(selected),
    )
}

fn same_list(a: &ListState, b: &TuiList) {
    assert_eq!(a.offset, b.offset());
    assert_eq!(a.selected, b.selected());
}

fn table_pair(offset: usize, selected: Option<usize>, column: Option<usize>) -> (TableState, TuiTable) {
    (
        TableState::new().with_offset(offset).with_selected(selected).with_selected_column(column),
        TuiTable::new().with_offset(offset).with_selected(selected).with_selected_column(column),
    )
}

fn same_table(a: &TableState, b: &TuiTable) {
    assert_eq!(a.offset, b.offset());
    assert_eq!(a.selected, b.selected());
    assert_eq!(a.selected_column, b.selected_column());
    assert_eq!(a.selected_cell(), b.selected_cell());
}

const SELECTIONS: [Option<usize>; 5] = [None, Some(0), Some(1), Some(7), Some(usize::MAX)];
const AMOUNTS: [u16; 4] = [0, 1, 5, u16::MAX];

#[test]
fn list_navigation_matches_ratatui() {
    for sel in SELECTIONS {
        let (mut a, mut b) = list_pair(3, sel);
        a.select_next();
        b.select_next();
        same_list(&a, &b);
        let (mut a, mut b) = list_pair(3, sel);
        a.select_previous();
        b.select_previous();
        same_list(&a, &b);
        let (mut a, mut b) = list_pair(3, sel);
        a.select_first();
        b.select_first();
        same_list(&a, &b);
        let (mut a, mut b) = list_pair(3, sel);
        a.select_last();
        b.select_last();
        same_list(&a, &b);
        for amount in AMOUNTS {
            let (mut a, mut b) = list_pair(3, sel);
            a.scroll_down_by(amount);
            b.scroll_down_by(amount);
            same_list(&a, &b);
            let (mut a, mut b) = list_pair(3, sel);
            a.scroll_up_by(amount);
            b.scroll_up_by(amount);
            same_list(&a, &b);
        }
    }
}

#[test]
fn list_mut_accessors() {
    let mut s = ListState::default().with_offset(4).with_selected(Some(2));
    *s.offset_mut() = 9;
    *s.selected_mut() = None;
    assert_eq!(s.offset(), 9);
    assert_eq!(s.selected(), None);
}

#[test]
fn table_navigation_matches_ratatui() {
    for sel in SELECTIONS {
        for col in SELECTIONS {
            check_table_ops(sel, col);
        }
    }
}

fn check_table_ops(sel: Option<usize>, col: Option<usize>) {
    let ops: [fn(&mut TableState); 8] = [
        TableState::select_next,
        TableState::select_previous,
        TableState::select_first,
        TableState::select_last,
        TableState::select_next_column,
        TableState::select_previous_column,
        TableState::select_first_column,
        TableState::select_last_column,
    ];
    let theirs: [fn(&mut TuiTable); 8] = [
        TuiTable::select_next,
        TuiTable::select_previous,
        TuiTable::select_first,
        TuiTable::select_last,
        TuiTable::select_next_column,
        TuiTable::select_previous_column,
        TuiTable::select_first_column,
        TuiTable::select_last_column,
    ];
    for (ours, tui) in ops.iter().zip(theirs.iter()) {
        let (mut a, mut b) = table_pair(2, sel, col);
        ours(&mut a);
        tui(&mut b);
        same_table(&a, &b);
    }
    for amount in AMOUNTS {
        let (mut a, mut b) = table_pair(2, sel, col);
        a.scroll_down_by(amount);
        b.scroll_down_by(amount);
        same_table(&a, &b);
        let (mut a, mut b) = table_pair(2, sel, col);
        a.scroll_up_by(amount);
        b.scroll_up_by(amount);
        same_table(&a, &b);
        let (mut a, mut b) = table_pair(2, sel, col);
        a.scroll_right_by(amount);
        b.scroll_right_by(amount);
        same_table(&a, &b);
        let (mut a, mut b) = table_pair(2, sel, col);
        a.scroll_left_by(amount);
        b.scroll_left_by(amount);
        same_table(&a, &b);
    }
    for cell in [None, Some((1usize, 2usize))] {
        let (mut a, mut b) = table_pair(2, sel, col);
        a.select_cell(cell);
        b.select_cell(cell);
        same_table(&a, &b);
        let (a, b) = table_pair(2, sel, col);
        same_table(&a.with_selected_cell(cell), &b.with_selected_cell(cell));
    }
    let (mut a, mut b) = table_pair(2, sel, col);
    a.select_column(Some(4));
    b.select_column(Some(4));
    same_table(&a, &b);
}

#[test]
fn table_mut_accessors() {
    let mut s = TableState::new();
    *s.offset_mut() = 5;
    *s.selected_mut() = Some(1);
    *s.selected_column_mut() = Some(2);
    assert_eq!(s.selected_cell(), Some((1, 2)));
    assert_eq!(s.offset(), 5);
}

#[test]
fn loop_continuation() {
    assert!(matches!(continuation(true), Continuation::Stop));
    assert!(matches!(continuation(false), Continuation::Go));
    assert!(matches!(plan_after_foreground(Some(3u8)), LoopStep::Update(3)));
    assert!(matches!(plan_after_foreground::<u8>(None), LoopStep::Redraw));
}

#[test]
fn round_outcomes_are_recorded() {
    let mut ex = Vec::new();
    assert_eq!(record_outcome::<u8>(&mut ex, PollOutcome::Ended), None);
    assert_eq!(record_outcome::<u8>(&mut ex, PollOutcome::Waiting), None);
    assert_eq!(record_outcome(&mut ex, PollOutcome::Item(9u8)), Some(9));
    assert_eq!(ex, vec![true, false]);
}
