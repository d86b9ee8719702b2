use vstd::prelude::*;

use std::cell::Cell;
use std::rc::Rc;

use crate::layout::Rect;
use crate::shared::{shared_get, shared_set};

verus! {

/// The region a view occupies, either held here or shared through a cell with
/// another part of the view.
#[derive(Debug, Clone)]
pub enum Area {
    Literal(Rect),
    Ref(Rc<Cell<Rect>>),
}

impl Default for Area {
    fn default() -> (r: Self)
        ensures
            r == Area::Literal(Rect { x: 0, y: 0, width: 0, height: 0 }),
    {
        Area::Literal(Rect { x: 0, y: 0, width: 0, height: 0 })
    }
}

impl Area {
    /// The region held here, or `None` where it lives in a shared cell.
    pub open spec fn held(self) -> Option<Rect> {
        match self {
            Area::Literal(v) => Some(v),
            Area::Ref(_) => None,
        }
    }

    /// The value `set(area)` leaves behind: a `Literal` is replaced, a `Ref`
    /// keeps its cell (the region goes into the cell).
    pub open spec fn after_set(self, area: Rect) -> Area {
        match self {
            Area::Literal(_) => Area::Literal(area),
            Area::Ref(_) => self,
        }
    }

    /// The region: the one held for `Literal`, the cell's current one for `Ref`.
    pub fn get(&self) -> (r: Rect)
        ensures
            self.held() matches Some(v) ==> r == v,
    {
        match self {
            Area::Literal(v) => *v,
            Area::Ref(v) => shared_get(v),
        }
    }

    /// Stores `area`.
    pub fn set(&mut self, area: Rect)
        ensures
            *final(self) == old(self).after_set(area),
    {
        match self {
            Area::Literal(v) => {
                *v = area;
            },
            Area::Ref(v) => {
                shared_set(v, area);
            },
        }
    }
}

/// A region held here reads back what was last stored, and storing keeps the
/// kind of area (held or shared).
pub proof fn lemma_area_read_back(a: Area, area: Rect)
    ensures
        a.held() is Some ==> a.after_set(area).held() == Some(area),
        a.after_set(area).held() is Some == a.held() is Some,
{
}

} // verus!
