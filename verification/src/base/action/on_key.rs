use vstd::prelude::*;

use crate::base::action::filter_map::{answers, FilterMap};
use crate::base::action::map::KeyMap;

verus! {

/// How a view answers keys: through one function (`Mapped`), through a list of
/// conditions with fixed messages (`FilterMap`), or not at all. The two ways
/// exclude each other. The bindings are used once: answering a key uses them
/// up.
pub enum OnKey<C, F, M> {
    Mapped(KeyMap<F>),
    FilterMap(FilterMap<C, M>),
    Unbound,
}

impl<C, F, M> Default for OnKey<C, F, M> {
    fn default() -> (r: Self)
        ensures
            r is Unbound,
    {
        OnKey::Unbound
    }
}

/// Every binding in `on_key` can be called with `key`.
pub open spec fn callable_with<C: FnOnce(&K) -> bool, F: FnOnce(&K) -> Option<M>, M, K>(
    on_key: OnKey<C, F, M>,
    key: &K,
) -> bool {
    match on_key {
        OnKey::Mapped(m) => m.function().requires((key,)),
        OnKey::FilterMap(v) => forall|i: int| 0 <= i < v.bindings().len() ==> (#[trigger] v.bindings()[i]).0.requires((key,)),
        OnKey::Unbound => true,
    }
}

/// `r` is a message `on_key` may answer `key` with.
pub open spec fn answer_of<C: FnOnce(&K) -> bool, F: FnOnce(&K) -> Option<M>, M, K>(
    on_key: OnKey<C, F, M>,
    key: &K,
    r: Option<M>,
) -> bool {
    match on_key {
        OnKey::Mapped(m) => m.function().ensures((key,), r),
        OnKey::FilterMap(v) => match r {
            Some(msg) => exists|i: int| #[trigger] answers(v.bindings(), key, i) && v.bindings()[i].1 == msg,
            None => forall|j: int| 0 <= j < v.bindings().len() ==> (#[trigger] v.bindings()[j]).0.ensures((key,), false),
        },
        OnKey::Unbound => r is None,
    }
}

impl<C, F, M> OnKey<C, F, M> {
    /// Answers `key` with the bindings, which are used up: afterwards there
    /// are none.
    pub fn key<K>(&mut self, key: &K) -> (r: Option<M>)
        where C: FnOnce(&K) -> bool, F: FnOnce(&K) -> Option<M>,
        requires
            callable_with(*old(self), key),
        ensures
            answer_of(*old(self), key, r),
            *final(self) is Unbound,
    {
        let mut on_key = OnKey::Unbound;
        std::mem::swap(&mut on_key, self);
        match on_key {
            OnKey::Mapped(v) => v.key(key),
            OnKey::FilterMap(v) => v.key(key),
            OnKey::Unbound => None,
        }
    }

    /// Adds a binding of condition `cond` to message `msg` after the existing
    /// ones. The bindings must not be a single function (`Mapped`).
    pub fn on_key(&mut self, cond: C, msg: M) -> (r: &mut Self)
        requires
            !(*old(self) is Mapped),
        ensures
            *final(self) == *final(r),
            *r matches OnKey::FilterMap(v) && v.bindings() == match *old(self) {
                OnKey::FilterMap(w) => w.bindings(),
                _ => Seq::<(C, M)>::empty(),
            }.push((cond, msg)),
    {
        let mut current = OnKey::Unbound;
        std::mem::swap(&mut current, self);
        let mut bindings = match current {
            OnKey::FilterMap(v) => v,
            _ => FilterMap::new(),
        };
        bindings.on_key(cond, msg);
        *self = OnKey::FilterMap(bindings);
        self
    }

    /// Makes `f` the single function that answers keys. There must be no
    /// condition bindings (`FilterMap`).
    pub fn on_key_with(&mut self, f: F) -> (r: &mut Self)
        requires
            !(*old(self) is FilterMap),
        ensures
            *final(self) == *final(r),
            *r matches OnKey::Mapped(m) && m.function() == f,
    {
        *self = OnKey::Mapped(KeyMap::new(f));
        self
    }
}

} // verus!
