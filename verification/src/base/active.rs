use vstd::prelude::*;

verus! {

/// A view whose reaction to events can be switched on and off.
///
/// An implementation names its flag twice: `is_active` reads it, and
/// `active_mut` hands out a mutable reference to it.
pub trait Activable {
    /// Whether the view reacts to events: the flag that `active_mut` hands out.
    spec fn is_active(&self) -> bool;

    /// The flag that says whether the view reacts to events; what is stored
    /// through it is what `is_active` reads afterwards.
    fn active_mut(&mut self) -> (r: &mut bool)
        ensures
            *r == old(self).is_active(),
            final(self).is_active() == *final(r),
    ;

    /// Switches the view on (`set == true`) or off and returns it.
    fn active(self, set: bool) -> (r: Self) where Self: Sized
        ensures
            r.is_active() == set,
    {
        let mut this = self;
        *this.active_mut() = set;
        this
    }
}

} // verus!
