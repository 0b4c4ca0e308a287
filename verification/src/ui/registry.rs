//! The record of open windows.

use std::collections::HashMap;
use vstd::prelude::*;
use vstd::std_specs::iter::IteratorSpec;

use crate::ui::main_app;
use crate::ui::window::WindowId;

verus! {

broadcast use vstd::std_specs::hash::group_hash_axioms;

/// Which view each open window shows. The order in which windows were
/// registered plays no part.
#[derive(Debug)]
pub struct WindowRegistry {
    pub windows: HashMap<u64, main_app::View>,
}

impl View for WindowRegistry {
    type V = Map<WindowId, main_app::View>;

    open spec fn view(&self) -> Map<WindowId, main_app::View> {
        Map::new(
            |id: WindowId| self.windows@.contains_key(id.raw),
            |id: WindowId| self.windows@[id.raw],
        )
    }
}

impl WindowRegistry {
    /// A registry without windows.
    pub fn new() -> (r: WindowRegistry)
        ensures
            r@ == Map::<WindowId, main_app::View>::empty(),
    {
        let r = WindowRegistry { windows: HashMap::new() };
        r
    }

    /// Records that window `id` shows `kind`.
    pub fn register(&mut self, id: WindowId, kind: main_app::View)
        requires
            !old(self)@.contains_key(id),
        ensures
            final(self)@ == old(self)@.insert(id, kind),
    {
        self.windows.insert(id.raw, kind);
    }

    /// Forgets window `id` and returns the view it showed, or `None`
    /// when the window is not recorded.
    pub fn unregister(&mut self, id: WindowId) -> (kind: Option<main_app::View>)
        ensures
            final(self)@ == old(self)@.remove(id),
            kind == (if old(self)@.contains_key(id) {
                Some(old(self)@[id])
            } else {
                None
            }),
    {
        let kind = self.windows.remove(&id.raw);
        kind
    }

    /// The view that window `id` shows, or `None` when the window is
    /// not recorded.
    pub fn resolve(&self, id: WindowId) -> (kind: Option<main_app::View>)
        ensures
            kind == (if self@.contains_key(id) {
                Some(self@[id])
            } else {
                None
            }),
    {
        match self.windows.get(&id.raw) {
            Some(kind) => Some(*kind),
            None => None,
        }
    }

    /// The number of recorded windows.
    pub open spec fn count(&self) -> nat {
        self.windows@.len()
    }

    /// The number of recorded windows.
    pub fn len(&self) -> (n: usize)
        ensures
            n == self.count(),
    {
        self.windows.len()
    }

    /// Empties the registry and returns what it held, every window once,
    /// in no particular order.
    pub fn drain(&mut self) -> (out: Vec<(WindowId, main_app::View)>)
        ensures
            final(self)@ == Map::<WindowId, main_app::View>::empty(),
            final(self).count() == 0,
            out@.len() == old(self).count(),
            forall|i: int|
                0 <= i < out@.len() ==> #[trigger] old(self)@.contains_pair(out@[i].0, out@[i].1),
            forall|id: WindowId| #[trigger]
                old(self)@.contains_key(id) ==> exists|i: int|
                    0 <= i < out@.len() && (#[trigger] out@[i]).0 == id,
            forall|i: int, j: int|
                0 <= i < j < out@.len() ==> (#[trigger] out@[i]).0 != (#[trigger] out@[j]).0,
    {
        let mut out: Vec<(WindowId, main_app::View)> = Vec::new();
        let ghost all = vstd::std_specs::hash::spec_hash_map_iter(&self.windows).remaining();
        for entry in it: self.windows.iter()
            invariant
                it.seq() == all,
                out@.len() == it.index(),
                forall|i: int|
                    0 <= i < it.index() ==> (#[trigger] out@[i]).0.raw == *all[i].0 && out@[i].1
                        == *all[i].1,
        {
            let (k, v) = entry;
            out.push((WindowId { raw: *k }, *v));
        }
        proof {
            let m = self.windows@;
            assert forall|id: WindowId| #[trigger] self@.contains_key(id) implies exists|i: int|
                0 <= i < out@.len() && (#[trigger] out@[i]).0 == id by {
                let k = id.raw;
                let i = choose|i: int| 0 <= i < all.len() && all[i] == (&k, &m[k]);
                assert(out@[i].0 == id);
            }
            assert forall|i: int, j: int| 0 <= i < j < out@.len() implies (#[trigger] out@[i]).0 != (
            #[trigger] out@[j]).0 by {
                if out@[i].0 == out@[j].0 {
                    assert(m[*all[j].0] == *all[j].1);
                }
            }
        }
        self.windows.clear();
        out
    }
}

} // verus!
