use vstd::prelude::*;

use crate::layout::{Position, Rect};

verus! {

/// The index of the first child that is active, if any: the child a container
/// laid out side by side hands keys and pastes to.
pub fn first_active(active: &Vec<bool>) -> (r: Option<usize>)
    ensures
        match r {
            Some(i) => i < active@.len() && active@[i as int] && forall|j: int| 0 <= j < i ==> !active@[j],
            None => forall|j: int| 0 <= j < active@.len() ==> !active@[j],
        },
{
    let mut i: usize = 0;
    while i < active.len()
        invariant
            i <= active@.len(),
            forall|j: int| 0 <= j < i ==> !active@[j],
        decreases active@.len() - i,
    {
        if active[i] {
            return Some(i);
        }
        i = i + 1;
    }
    None
}

/// The index of the last child that is active, if any: the child of a stack
/// (the topmost active layer) that keys and pastes go to.
pub fn last_active(active: &Vec<bool>) -> (r: Option<usize>)
    ensures
        match r {
            Some(i) => i < active@.len() && active@[i as int] && forall|j: int| i < j < active@.len() ==> !active@[j],
            None => forall|j: int| 0 <= j < active@.len() ==> !active@[j],
        },
{
    let mut i: usize = active.len();
    while i > 0
        invariant
            i <= active@.len(),
            forall|j: int| i <= j < active@.len() ==> !active@[j],
        decreases i,
    {
        if active[i - 1] {
            return Some(i - 1);
        }
        i = i - 1;
    }
    None
}

/// Whether a container reacts to events: it does when it is active itself or
/// any of its children is.
pub fn any_active(own: bool, active: &Vec<bool>) -> (r: bool)
    ensures
        r == (own || exists|j: int| 0 <= j < active@.len() && active@[j]),
{
    if own {
        return true;
    }
    match first_active(active) {
        Some(_) => true,
        None => false,
    }
}

/// The index of the first child whose area contains `position`, if any: the
/// child a click goes to.
pub fn hit_test(areas: &Vec<Rect>, position: Position) -> (r: Option<usize>)
    ensures
        match r {
            Some(i) => i < areas@.len() && areas@[i as int].contains_spec(position)
                && forall|j: int| 0 <= j < i ==> !(#[trigger] areas@[j]).contains_spec(position),
            None => forall|j: int| 0 <= j < areas@.len() ==> !(#[trigger] areas@[j]).contains_spec(position),
        },
{
    let mut i: usize = 0;
    while i < areas.len()
        invariant
            i <= areas@.len(),
            forall|j: int| 0 <= j < i ==> !(#[trigger] areas@[j]).contains_spec(position),
        decreases areas@.len() - i,
    {
        if areas[i].contains(position) {
            return Some(i);
        }
        i = i + 1;
    }
    None
}

} // verus!
