use vstd::prelude::*;

verus! {

/// A key binding computed by one function of the key, used once.
pub struct KeyMap<F> {
    inner: F,
}

impl<F> KeyMap<F> {
    pub closed spec fn function(self) -> F {
        self.inner
    }

    pub fn new(f: F) -> (r: Self)
        ensures
            r.function() == f,
    {
        KeyMap { inner: f }
    }

    /// The message the function answers `key` with.
    pub fn key<K, M>(self, key: &K) -> (r: Option<M>)
        where F: FnOnce(&K) -> Option<M>,
        requires
            self.function().requires((key,)),
        ensures
            self.function().ensures((key,), r),
    {
        (self.inner)(key)
    }
}

} // verus!
