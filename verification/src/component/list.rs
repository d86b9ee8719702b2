use vstd::prelude::*;

use crate::component::selection::{
    down_by, index_down_by, index_up_by, move_selection, next_index, next_of, previous_index, previous_of,
    selection_after, up_by,
};
use crate::layout::Rect;
use crate::scroll::action::{offset_spec, ScrollAction};

verus! {

/// The state of a list view: which item is selected, the first item shown,
/// and the region the list was last laid out in.
#[derive(Debug, Default, Clone, Copy, PartialEq, Eq)]
pub struct ListState {
    /// Index of the first item shown.
    pub offset: usize,
    /// Index of the selected item, if any.
    pub selected: Option<usize>,
    /// The region the list was last laid out in.
    pub area: Rect,
}

impl ListState {
    /// A state with the given first item shown and selection.
    pub fn new(offset: usize, selected: Option<usize>, area: Rect) -> (r: Self)
        ensures
            r.offset == offset,
            r.selected == selected,
            r.area == area,
    {
        ListState { offset, selected, area }
    }

    /// Index of the first item shown.
    pub fn offset(&self) -> (r: usize)
        ensures
            r == self.offset,
    {
        self.offset
    }

    /// Sets the index of the first item shown.
    pub fn set_offset(&mut self, offset: usize)
        ensures
            final(self).offset == offset,
            final(self).selected == old(self).selected,
            final(self).area == old(self).area,
    {
        self.offset = offset;
    }

    /// Index of the selected item, if any.
    pub fn selected(&self) -> (r: Option<usize>)
        ensures
            r == self.selected,
    {
        self.selected
    }

    /// Selects `index`; clearing the selection also shows the list from its
    /// first item.
    pub fn select(&mut self, index: Option<usize>)
        ensures
            final(self).selected == index,
            final(self).offset == if index is None { 0 } else { old(self).offset },
            final(self).area == old(self).area,
    {
        self.selected = index;
        if index.is_none() {
            self.offset = 0;
        }
    }

    /// Selects the first item.
    pub fn reset(&mut self)
        ensures
            final(self).selected == Some(0usize),
            final(self).offset == old(self).offset,
            final(self).area == old(self).area,
    {
        self.select(Some(0));
    }

    /// Selects the item after the selected one, or the first item where none is selected.
    pub fn select_next(&mut self)
        ensures
            final(self).selected == Some(next_index(old(self).selected)),
            final(self).offset == old(self).offset,
            final(self).area == old(self).area,
    {
        let index = next_of(self.selected);
        self.select(Some(index));
    }

    /// Selects the item before the selected one, or the last item (`usize::MAX`, which drawing clamps to the last item) where none is selected.
    pub fn select_previous(&mut self)
        ensures
            final(self).selected == Some(previous_index(old(self).selected)),
            final(self).offset == old(self).offset,
            final(self).area == old(self).area,
    {
        let index = previous_of(self.selected);
        self.select(Some(index));
    }

    /// Selects the first item.
    pub fn select_first(&mut self)
        ensures
            final(self).selected == Some(0usize),
            final(self).offset == old(self).offset,
            final(self).area == old(self).area,
    {
        let index: usize = 0;
        self.select(Some(index));
    }

    /// Selects the last item (`usize::MAX`, which drawing clamps to the last item).
    pub fn select_last(&mut self)
        ensures
            final(self).selected == Some(usize::MAX),
            final(self).offset == old(self).offset,
            final(self).area == old(self).area,
    {
        let index: usize = usize::MAX;
        self.select(Some(index));
    }

    /// Moves the selection `amount` items down (from the first item where none is selected), held at `usize::MAX`.
    pub fn scroll_down_by(&mut self, amount: u16)
        ensures
            final(self).selected == Some(index_down_by(old(self).selected, amount)),
            final(self).offset == old(self).offset,
            final(self).area == old(self).area,
    {
        let index = down_by(self.selected, amount);
        self.select(Some(index));
    }

    /// Moves the selection `amount` items up (from the first item where none is selected), held at the first item.
    pub fn scroll_up_by(&mut self, amount: u16)
        ensures
            final(self).selected == Some(index_up_by(old(self).selected, amount)),
            final(self).offset == old(self).offset,
            final(self).area == old(self).area,
    {
        let index = up_by(self.selected, amount);
        self.select(Some(index));
    }

    /// The state with `offset` as its first item shown.
    pub fn with_offset(self, offset: usize) -> (r: Self)
        ensures
            r == (ListState { offset, ..self }),
    {
        ListState { offset, ..self }
    }

    /// The state with `selected` as its selection.
    pub fn with_selected(self, selected: Option<usize>) -> (r: Self)
        ensures
            r == (ListState { selected, ..self }),
    {
        ListState { selected, ..self }
    }

    /// The index of the first item shown, to change in place.
    pub fn offset_mut(&mut self) -> (r: &mut usize)
        ensures
            *r == old(self).offset,
            final(self).offset == *final(r),
            final(self).selected == old(self).selected,
            final(self).area == old(self).area,
    {
        &mut self.offset
    }

    /// The selection, to change in place.
    pub fn selected_mut(&mut self) -> (r: &mut Option<usize>)
        ensures
            *r == old(self).selected,
            final(self).selected == *final(r),
            final(self).offset == old(self).offset,
            final(self).area == old(self).area,
    {
        &mut self.selected
    }

    /// Moves the selection through a list of `height` items, one line each, by
    /// `action` measured against the list's last area.
    pub fn scroll_lines(&mut self, action: ScrollAction, height: usize)
        ensures
            final(self).selected == Some(
                selection_after(old(self).selected, offset_spec(action, old(self).area.height as int), height as int) as usize,
            ),
            final(self).offset == old(self).offset,
            final(self).area == old(self).area,
    {
        let selected_offset = action.offset(self.area.height);
        let index = move_selection(self.selected, selected_offset, height);
        self.select(Some(index));
    }
}

} // verus!
