use vstd::prelude::*;

verus! {

/// A view whose messages are turned into messages of another type by
/// `mapper` before they are handed on.
pub struct MapMessage<W, F> {
    widget: W,
    mapper: F,
}

impl<W, F> MapMessage<W, F> {
    pub closed spec fn widget_spec(self) -> W {
        self.widget
    }

    pub closed spec fn mapper_spec(self) -> F {
        self.mapper
    }

    pub fn new(widget: W, mapper: F) -> (r: Self)
        ensures
            r.widget_spec() == widget,
            r.mapper_spec() == mapper,
    {
        MapMessage { widget, mapper }
    }

    /// The wrapped view.
    pub fn widget(&self) -> (r: &W)
        ensures
            *r == self.widget_spec(),
    {
        &self.widget
    }

    /// The wrapped view, for handling an event or laying it out.
    pub fn widget_mut(&mut self) -> (r: &mut W)
        ensures
            *r == old(self).widget_spec(),
            final(self).widget_spec() == *final(r),
            final(self).mapper_spec() == old(self).mapper_spec(),
    {
        &mut self.widget
    }

    /// Turns the wrapped view's answer, if any, into a message of the outer
    /// type.
    pub fn map<M, O>(&self, message: Option<M>) -> (r: Option<O>)
        where F: Fn(M) -> O,
        requires
            message matches Some(m) ==> self.mapper_spec().requires((m,)),
        ensures
            match message {
                Some(m) => r matches Some(o) && self.mapper_spec().ensures((m,), o),
                None => r is None,
            },
    {
        match message {
            Some(m) => Some((self.mapper)(m)),
            None => None,
        }
    }
}

} // verus!
