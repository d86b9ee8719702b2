use vstd::prelude::*;

use crate::scroll::reposition::{min_int, sat_sub};

verus! {

/// `value` held inside the range of `usize`.
pub open spec fn clamp_usize(value: int) -> int {
    if value < 0 { 0 } else if value > usize::MAX { usize::MAX as int } else { value }
}

/// `offset` reinterpreted as a `usize` (two's complement, as `as usize` does
/// on a negative `i16`).
pub open spec fn wrap_usize(offset: int) -> int {
    if offset >= 0 { offset } else { usize::MAX + 1 + offset }
}

/// The item selected after moving the selection by `offset` items in a list of
/// `height` items, one line per item.
///
/// A selected item moves by `offset`, held inside `usize`, and is kept at or
/// before the last item. Without a selection, the offset itself is taken as an
/// index (a negative one wraps around to a huge index), again kept at or
/// before the last item.
pub open spec fn selection_after(selected: Option<usize>, offset: int, height: int) -> int {
    let last = sat_sub(height, 1);
    match selected {
        Some(i) => min_int(clamp_usize(i + offset), last),
        None => min_int(wrap_usize(offset), last),
    }
}

/// The index after `selected` (the first index where nothing is selected),
/// held at `usize::MAX`.
pub open spec fn next_index(selected: Option<usize>) -> usize {
    match selected {
        Some(i) => if i == usize::MAX { i } else { (i + 1) as usize },
        None => 0,
    }
}

/// The index before `selected` (held at zero), or `usize::MAX` (the last
/// index, once clamped to the content) where nothing is selected.
pub open spec fn previous_index(selected: Option<usize>) -> usize {
    match selected {
        Some(i) => if i == 0 { 0 } else { (i - 1) as usize },
        None => usize::MAX,
    }
}

/// `amount` indices after `selected` (after index 0 where nothing is
/// selected), held at `usize::MAX`.
pub open spec fn index_down_by(selected: Option<usize>, amount: u16) -> usize {
    let base: int = match selected { Some(i) => i as int, None => 0 };
    if base + amount > usize::MAX { usize::MAX } else { (base + amount) as usize }
}

/// `amount` indices before `selected` (before index 0 where nothing is
/// selected), held at zero.
pub open spec fn index_up_by(selected: Option<usize>, amount: u16) -> usize {
    let base: int = match selected { Some(i) => i as int, None => 0 };
    if base < amount { 0 } else { (base - amount) as usize }
}

/// Computes [`next_index`].
pub fn next_of(selected: Option<usize>) -> (r: usize)
    ensures
        r == next_index(selected),
{
    match selected {
        Some(i) => if i == usize::MAX { i } else { i + 1 },
        None => 0,
    }
}

/// Computes [`previous_index`].
pub fn previous_of(selected: Option<usize>) -> (r: usize)
    ensures
        r == previous_index(selected),
{
    match selected {
        Some(i) => if i == 0 { 0 } else { i - 1 },
        None => usize::MAX,
    }
}

/// Computes [`index_down_by`].
pub fn down_by(selected: Option<usize>, amount: u16) -> (r: usize)
    ensures
        r == index_down_by(selected, amount),
{
    let base: usize = match selected {
        Some(i) => i,
        None => 0,
    };
    let step = amount as usize;
    if base > usize::MAX - step { usize::MAX } else { base + step }
}

/// Computes [`index_up_by`].
pub fn up_by(selected: Option<usize>, amount: u16) -> (r: usize)
    ensures
        r == index_up_by(selected, amount),
{
    let base: usize = match selected {
        Some(i) => i,
        None => 0,
    };
    let step = amount as usize;
    if base < step { 0 } else { base - step }
}

/// Computes [`selection_after`].
pub fn move_selection(selected: Option<usize>, offset: i16, height: usize) -> (r: usize)
    ensures
        r == selection_after(selected, offset as int, height as int),
{
    let last: usize = if height >= 1 { height - 1 } else { 0 };
    let moved: usize = match selected {
        Some(i) => {
            if offset >= 0 {
                let up = offset as usize;
                if i <= usize::MAX - up { i + up } else { usize::MAX }
            } else {
                let down = (-(offset as i32)) as usize;
                if i >= down { i - down } else { 0 }
            }
        },
        None => {
            if offset >= 0 {
                offset as usize
            } else {
                usize::MAX - ((-(offset as i32) - 1) as usize)
            }
        },
    };
    if moved <= last { moved } else { last }
}

/// A moved selection always names an item of a non-empty list, and moving by
/// nothing keeps a selection that already does.
pub proof fn lemma_selection_in_list(selected: Option<usize>, offset: i16, height: usize)
    ensures
        height > 0 ==> 0 <= selection_after(selected, offset as int, height as int) < height,
        height == 0 ==> selection_after(selected, offset as int, height as int) == 0,
        selected matches Some(i) ==> (i < height ==> selection_after(selected, 0, height as int) == i),
{
}

/// Without a selection, a move forward selects the item at the distance moved
/// (at most the last item), and a move backward selects the last item.
///
/// The backward case needs a list short enough that a negative distance, taken
/// as an index, lies past its end (it does for every list of fewer than
/// `usize::MAX - 0x8000` items).
pub proof fn lemma_unselected_move(offset: i16, height: usize)
    ensures
        offset >= 0 ==> selection_after(None, offset as int, height as int) == (if (offset as int) < height {
            offset as int
        } else if height > 0 {
            height - 1
        } else {
            0
        }),
        offset < 0 && height <= usize::MAX - 0x8000 ==> selection_after(None, offset as int, height as int) == (if height > 0 {
            height - 1
        } else {
            0
        }),
{
}

/// A selected item moves by exactly the distance asked where that stays inside
/// the list, and otherwise stops at the first or the last item.
pub proof fn lemma_selected_move(i: usize, offset: i16, height: usize)
    requires
        i < height,
    ensures
        0 <= i + offset < height ==> selection_after(Some(i), offset as int, height as int) == i + offset,
        i + offset < 0 ==> selection_after(Some(i), offset as int, height as int) == 0,
        i + offset >= height ==> selection_after(Some(i), offset as int, height as int) == height - 1,
{
}

/// Moving an existing selection is monotone in the distance moved.
pub proof fn lemma_selection_monotone(i: usize, a: i16, b: i16, height: usize)
    requires
        a <= b,
    ensures
        selection_after(Some(i), a as int, height as int) <= selection_after(Some(i), b as int, height as int),
{
}

} // verus!
