use vstd::prelude::*;

use std::cell::Cell;
use std::rc::Rc;

use crate::shared::{shared_get, shared_set};

verus! {

/// A scroll position, either held here or shared through a cell with another
/// part of the view.
#[derive(Debug, Clone)]
pub enum ScrollPosition {
    Literal(usize),
    Ref(Rc<Cell<usize>>),
}

impl Default for ScrollPosition {
    fn default() -> (r: Self)
        ensures
            r == ScrollPosition::Literal(0),
    {
        ScrollPosition::Literal(0)
    }
}

impl ScrollPosition {
    /// The position held here, or `None` where it lives in a shared cell.
    pub open spec fn held(self) -> Option<usize> {
        match self {
            ScrollPosition::Literal(v) => Some(v),
            ScrollPosition::Ref(_) => None,
        }
    }

    /// The value `set(position)` leaves behind: a `Literal` is replaced, a
    /// `Ref` keeps its cell (the value goes into the cell).
    pub open spec fn after_set(self, position: usize) -> ScrollPosition {
        match self {
            ScrollPosition::Literal(_) => ScrollPosition::Literal(position),
            ScrollPosition::Ref(_) => self,
        }
    }

    /// The position: the value held for `Literal`, the cell's current value for `Ref`.
    pub fn get(&self) -> (r: usize)
        ensures
            self.held() matches Some(v) ==> r == v,
    {
        match self {
            ScrollPosition::Literal(v) => *v,
            ScrollPosition::Ref(v) => shared_get(v),
        }
    }

    /// Stores `position`.
    pub fn set(&mut self, position: usize)
        ensures
            *final(self) == old(self).after_set(position),
    {
        match self {
            ScrollPosition::Literal(v) => {
                *v = position;
            },
            ScrollPosition::Ref(v) => {
                shared_set(v, position);
            },
        }
    }
}

/// A position held here reads back what was last stored, and storing keeps
/// the kind of position (held or shared).
pub proof fn lemma_position_read_back(p: ScrollPosition, position: usize)
    ensures
        p.held() is Some ==> p.after_set(position).held() == Some(position),
        p.after_set(position).held() is Some == p.held() is Some,
{
}

} // verus!
