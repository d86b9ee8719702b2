use vstd::prelude::*;

use crate::base::area::Area;
use crate::component::selection::{
    down_by, index_down_by, index_up_by, move_selection, next_index, next_of, previous_index, previous_of,
    selection_after, up_by,
};
use crate::scroll::action::{offset_spec, ScrollAction};
use crate::scroll::position::ScrollPosition;

verus! {

/// The state of a table view: which row (and column) is selected, the first
/// row shown, the region the table was last laid out in, and where the first
/// shown row is published for others (such as a scrollbar) to read.
#[derive(Debug, Default, Clone)]
pub struct TableState {
    /// Index of the first row shown.
    pub offset: usize,
    /// Index of the selected row, if any.
    pub selected: Option<usize>,
    /// Index of the selected column, if any.
    pub selected_column: Option<usize>,
    /// The region the table was last laid out in.
    pub area: Area,
    /// Where the table publishes its first shown row after each layout.
    pub pos_vertical: ScrollPosition,
}

impl TableState {
    /// Index of the first row shown.
    pub fn offset(&self) -> (r: usize)
        ensures
            r == self.offset,
    {
        self.offset
    }

    /// Index of the selected row, if any.
    pub fn selected(&self) -> (r: Option<usize>)
        ensures
            r == self.selected,
    {
        self.selected
    }

    /// Selects row `index`; clearing the selection also shows the table from
    /// its first row.
    pub fn select(&mut self, index: Option<usize>)
        ensures
            final(self).selected == index,
            final(self).offset == if index is None { 0 } else { old(self).offset },
            final(self).selected_column == old(self).selected_column,
            final(self).area == old(self).area,
            final(self).pos_vertical == old(self).pos_vertical,
    {
        self.selected = index;
        if index.is_none() {
            self.offset = 0;
        }
    }

    /// Publishes the first shown row through `pos_vertical`, as the table does
    /// after each layout.
    pub fn publish_offset(&mut self)
        ensures
            final(self).pos_vertical == old(self).pos_vertical.after_set(old(self).offset),
            final(self).offset == old(self).offset,
            final(self).selected == old(self).selected,
            final(self).selected_column == old(self).selected_column,
            final(self).area == old(self).area,
    {
        let offset = self.offset;
        self.pos_vertical.set(offset);
    }

    /// Selects the first row.
    pub fn reset(&mut self)
        ensures
            final(self).selected == Some(0usize),
            final(self).offset == old(self).offset,
            final(self).selected_column == old(self).selected_column,
            final(self).area == old(self).area,
            final(self).pos_vertical == old(self).pos_vertical,
    {
        self.select(Some(0));
    }

    /// Selects the row after the selected one, or the first row where none is selected.
    pub fn select_next(&mut self)
        ensures
            final(self).selected == Some(next_index(old(self).selected)),
            final(self).offset == old(self).offset,
            final(self).selected_column == old(self).selected_column,
            final(self).area == old(self).area,
            final(self).pos_vertical == old(self).pos_vertical,
    {
        let index: usize = next_of(self.selected);
        self.select(Some(index));
    }

    /// Selects the row before the selected one, or the last row (`usize::MAX`, which drawing clamps to the last row) where none is selected.
    pub fn select_previous(&mut self)
        ensures
            final(self).selected == Some(previous_index(old(self).selected)),
            final(self).offset == old(self).offset,
            final(self).selected_column == old(self).selected_column,
            final(self).area == old(self).area,
            final(self).pos_vertical == old(self).pos_vertical,
    {
        let index: usize = previous_of(self.selected);
        self.select(Some(index));
    }

    /// Selects the first row.
    pub fn select_first(&mut self)
        ensures
            final(self).selected == Some(0usize),
            final(self).offset == old(self).offset,
            final(self).selected_column == old(self).selected_column,
            final(self).area == old(self).area,
            final(self).pos_vertical == old(self).pos_vertical,
    {
        let index: usize = 0;
        self.select(Some(index));
    }

    /// Selects the last row (`usize::MAX`, which drawing clamps to the last row).
    pub fn select_last(&mut self)
        ensures
            final(self).selected == Some(usize::MAX),
            final(self).offset == old(self).offset,
            final(self).selected_column == old(self).selected_column,
            final(self).area == old(self).area,
            final(self).pos_vertical == old(self).pos_vertical,
    {
        let index: usize = usize::MAX;
        self.select(Some(index));
    }

    /// Selects the column after the selected one, or the first column where none is selected.
    pub fn select_next_column(&mut self)
        ensures
            final(self).selected_column == Some(next_index(old(self).selected_column)),
            final(self).offset == old(self).offset,
            final(self).selected == old(self).selected,
            final(self).area == old(self).area,
            final(self).pos_vertical == old(self).pos_vertical,
    {
        let index: usize = next_of(self.selected_column);
        self.select_column(Some(index));
    }

    /// Selects the column before the selected one, or the last column (`usize::MAX`, which drawing clamps to the last column) where none is selected.
    pub fn select_previous_column(&mut self)
        ensures
            final(self).selected_column == Some(previous_index(old(self).selected_column)),
            final(self).offset == old(self).offset,
            final(self).selected == old(self).selected,
            final(self).area == old(self).area,
            final(self).pos_vertical == old(self).pos_vertical,
    {
        let index: usize = previous_of(self.selected_column);
        self.select_column(Some(index));
    }

    /// Selects the first column.
    pub fn select_first_column(&mut self)
        ensures
            final(self).selected_column == Some(0usize),
            final(self).offset == old(self).offset,
            final(self).selected == old(self).selected,
            final(self).area == old(self).area,
            final(self).pos_vertical == old(self).pos_vertical,
    {
        let index: usize = 0;
        self.select_column(Some(index));
    }

    /// Selects the last column (`usize::MAX`, which drawing clamps to the last column).
    pub fn select_last_column(&mut self)
        ensures
            final(self).selected_column == Some(usize::MAX),
            final(self).offset == old(self).offset,
            final(self).selected == old(self).selected,
            final(self).area == old(self).area,
            final(self).pos_vertical == old(self).pos_vertical,
    {
        let index: usize = usize::MAX;
        self.select_column(Some(index));
    }

    /// Moves the row selection `amount` rows down (from the first row where none is selected), held at `usize::MAX`.
    pub fn scroll_down_by(&mut self, amount: u16)
        ensures
            final(self).selected == Some(index_down_by(old(self).selected, amount)),
            final(self).offset == old(self).offset,
            final(self).selected_column == old(self).selected_column,
            final(self).area == old(self).area,
            final(self).pos_vertical == old(self).pos_vertical,
    {
        let index: usize = down_by(self.selected, amount);
        self.select(Some(index));
    }

    /// Moves the row selection `amount` rows up (from the first row where none is selected), held at the first row.
    pub fn scroll_up_by(&mut self, amount: u16)
        ensures
            final(self).selected == Some(index_up_by(old(self).selected, amount)),
            final(self).offset == old(self).offset,
            final(self).selected_column == old(self).selected_column,
            final(self).area == old(self).area,
            final(self).pos_vertical == old(self).pos_vertical,
    {
        let index: usize = up_by(self.selected, amount);
        self.select(Some(index));
    }

    /// Moves the column selection `amount` columns right (from the first column where none is selected), held at `usize::MAX`.
    pub fn scroll_right_by(&mut self, amount: u16)
        ensures
            final(self).selected_column == Some(index_down_by(old(self).selected_column, amount)),
            final(self).offset == old(self).offset,
            final(self).selected == old(self).selected,
            final(self).area == old(self).area,
            final(self).pos_vertical == old(self).pos_vertical,
    {
        let index: usize = down_by(self.selected_column, amount);
        self.select_column(Some(index));
    }

    /// Moves the column selection `amount` columns left (from the first column where none is selected), held at the first column.
    pub fn scroll_left_by(&mut self, amount: u16)
        ensures
            final(self).selected_column == Some(index_up_by(old(self).selected_column, amount)),
            final(self).offset == old(self).offset,
            final(self).selected == old(self).selected,
            final(self).area == old(self).area,
            final(self).pos_vertical == old(self).pos_vertical,
    {
        let index: usize = up_by(self.selected_column, amount);
        self.select_column(Some(index));
    }

    /// A state with nothing selected, showing the table from its first row.
    pub fn new() -> (r: Self)
        ensures
            r.offset == 0,
            r.selected is None,
            r.selected_column is None,
            r.area == Area::Literal(crate::layout::Rect { x: 0, y: 0, width: 0, height: 0 }),
            r.pos_vertical == ScrollPosition::Literal(0),
    {
        TableState {
            offset: 0,
            selected: None,
            selected_column: None,
            area: Area::default(),
            pos_vertical: ScrollPosition::default(),
        }
    }

    /// The state with `offset` as its first row shown.
    pub fn with_offset(self, offset: usize) -> (r: Self)
        ensures
            r == (TableState { offset, ..self }),
    {
        TableState { offset, ..self }
    }

    /// The state with `selected` as its row selection.
    pub fn with_selected(self, selected: Option<usize>) -> (r: Self)
        ensures
            r == (TableState { selected, ..self }),
    {
        TableState { selected, ..self }
    }

    /// The state with `selected_column` as its column selection.
    pub fn with_selected_column(self, selected_column: Option<usize>) -> (r: Self)
        ensures
            r == (TableState { selected_column, ..self }),
    {
        TableState { selected_column, ..self }
    }

    /// The state with `cell` (row, column) selected, or with neither a row nor
    /// a column selected for `None`.
    pub fn with_selected_cell(self, cell: Option<(usize, usize)>) -> (r: Self)
        ensures
            r == (match cell {
                Some((row, column)) => TableState { selected: Some(row), selected_column: Some(column), ..self },
                None => TableState { selected: None, selected_column: None, ..self },
            }),
    {
        match cell {
            Some((row, column)) => TableState { selected: Some(row), selected_column: Some(column), ..self },
            None => TableState { selected: None, selected_column: None, ..self },
        }
    }

    /// Index of the selected column, if any.
    pub fn selected_column(&self) -> (r: Option<usize>)
        ensures
            r == self.selected_column,
    {
        self.selected_column
    }

    /// The selected cell (row, column), where both a row and a column are selected.
    pub fn selected_cell(&self) -> (r: Option<(usize, usize)>)
        ensures
            r == (match (self.selected, self.selected_column) {
                (Some(row), Some(column)) => Some((row, column)),
                _ => None,
            }),
    {
        match (self.selected, self.selected_column) {
            (Some(row), Some(column)) => Some((row, column)),
            _ => None,
        }
    }

    /// Selects column `index`.
    pub fn select_column(&mut self, index: Option<usize>)
        ensures
            final(self).selected_column == index,
            final(self).offset == old(self).offset,
            final(self).selected == old(self).selected,
            final(self).area == old(self).area,
            final(self).pos_vertical == old(self).pos_vertical,
    {
        self.selected_column = index;
    }

    /// Selects cell `indexes` (row, column); clearing the selection clears
    /// both and shows the table from its first row.
    pub fn select_cell(&mut self, indexes: Option<(usize, usize)>)
        ensures
            match indexes {
                Some((row, column)) => {
                    &&& final(self).selected == Some(row)
                    &&& final(self).selected_column == Some(column)
                    &&& final(self).offset == old(self).offset
                },
                None => {
                    &&& final(self).selected is None
                    &&& final(self).selected_column is None
                    &&& final(self).offset == 0
                },
            },
            final(self).area == old(self).area,
            final(self).pos_vertical == old(self).pos_vertical,
    {
        match indexes {
            Some((row, column)) => {
                self.selected = Some(row);
                self.selected_column = Some(column);
            },
            None => {
                self.offset = 0;
                self.selected = None;
                self.selected_column = None;
            },
        }
    }

    /// The index of the first row shown, to change in place.
    pub fn offset_mut(&mut self) -> (r: &mut usize)
        ensures
            *r == old(self).offset,
            final(self).offset == *final(r),
            final(self).selected == old(self).selected,
            final(self).selected_column == old(self).selected_column,
            final(self).area == old(self).area,
            final(self).pos_vertical == old(self).pos_vertical,
    {
        &mut self.offset
    }

    /// The row selection, to change in place.
    pub fn selected_mut(&mut self) -> (r: &mut Option<usize>)
        ensures
            *r == old(self).selected,
            final(self).selected == *final(r),
            final(self).offset == old(self).offset,
            final(self).selected_column == old(self).selected_column,
            final(self).area == old(self).area,
            final(self).pos_vertical == old(self).pos_vertical,
    {
        &mut self.selected
    }

    /// The column selection, to change in place.
    pub fn selected_column_mut(&mut self) -> (r: &mut Option<usize>)
        ensures
            *r == old(self).selected_column,
            final(self).selected_column == *final(r),
            final(self).offset == old(self).offset,
            final(self).selected == old(self).selected,
            final(self).area == old(self).area,
            final(self).pos_vertical == old(self).pos_vertical,
    {
        &mut self.selected_column
    }

    /// Moves the selection through a table of `height` rows, one line each, by
    /// `action` measured against the height of the table's area.
    ///
    /// Where the area is held here its height is used; where it is shared,
    /// the height read from the cell is used, which the contract leaves open.
    pub fn scroll_lines(&mut self, action: ScrollAction, height: usize)
        ensures
            old(self).area.held() matches Some(a) ==> final(self).selected == Some(
                selection_after(old(self).selected, offset_spec(action, a.height as int), height as int) as usize,
            ),
            exists|viewport: u16|
                final(self).selected == Some(
                    #[trigger] selection_after(old(self).selected, offset_spec(action, viewport as int), height as int) as usize,
                ),
            final(self).offset == old(self).offset,
            final(self).selected_column == old(self).selected_column,
            final(self).area == old(self).area,
            final(self).pos_vertical == old(self).pos_vertical,
    {
        let area = self.area.get();
        let selected_offset = action.offset(area.height);
        let index = move_selection(self.selected, selected_offset, height);
        self.select(Some(index));
    }
}

} // verus!
