use vstd::prelude::*;

verus! {

/// Key bindings that each answer with a fixed message: the first binding
/// whose condition holds for a key decides the message.
pub struct FilterMap<C, M> {
    key2msg: Vec<(C, M)>,
}

/// Binding `i` of `bindings` is the one that answers `key`: its condition
/// may hold for `key`, and the conditions of all bindings before it may fail.
pub open spec fn answers<C: FnOnce(&K) -> bool, M, K>(bindings: Seq<(C, M)>, key: &K, i: int) -> bool {
    &&& 0 <= i < bindings.len()
    &&& bindings[i].0.ensures((key,), true)
    &&& forall|j: int| 0 <= j < i ==> (#[trigger] bindings[j]).0.ensures((key,), false)
}

impl<C, M> Default for FilterMap<C, M> {
    fn default() -> (r: Self)
        ensures
            r.bindings() == Seq::<(C, M)>::empty(),
    {
        FilterMap::new()
    }
}

impl<C, M> FilterMap<C, M> {
    pub closed spec fn bindings(self) -> Seq<(C, M)> {
        self.key2msg@
    }

    /// No bindings.
    pub fn new() -> (r: Self)
        ensures
            r.bindings() == Seq::<(C, M)>::empty(),
    {
        FilterMap { key2msg: Vec::new() }
    }

    /// Adds a binding after the existing ones.
    pub fn on_key(&mut self, cond: C, msg: M) -> (r: &mut Self)
        ensures
            *final(self) == *final(r),
            r.bindings() == old(self).bindings().push((cond, msg)),
    {
        self.key2msg.push((cond, msg));
        self
    }

    /// The message of the first binding whose condition holds for `key`, or
    /// `None` where no condition holds. Conditions are evaluated in order, and
    /// none after the one that holds.
    pub fn key<K>(self, key: &K) -> (r: Option<M>)
        where C: FnOnce(&K) -> bool,
        requires
            forall|i: int| 0 <= i < self.bindings().len() ==> (#[trigger] self.bindings()[i]).0.requires((key,)),
        ensures
            r matches Some(m) ==> exists|i: int| #[trigger] answers(self.bindings(), key, i) && self.bindings()[i].1 == m,
            r is None ==> forall|j: int| 0 <= j < self.bindings().len() ==> (#[trigger] self.bindings()[j]).0.ensures((key,), false),
    {
        let ghost all = self.bindings();
        let mut rest = self.key2msg;
        let ghost mut i: int = 0;
        while rest.len() > 0
            invariant
                0 <= i <= all.len(),
                all == self.bindings(),
                rest@ == all.subrange(i, all.len() as int),
                forall|j: int| 0 <= j < all.len() ==> (#[trigger] all[j]).0.requires((key,)),
                forall|j: int| 0 <= j < i ==> (#[trigger] all[j]).0.ensures((key,), false),
            decreases rest.len(),
        {
            let (cond, msg) = rest.remove(0);
            assert(all[i] == (cond, msg));
            let hit = cond(key);
            if hit {
                assert(answers(all, key, i));
                return Some(msg);
            }
            proof {
                i = i + 1;
            }
        }
        None
    }
}

} // verus!
