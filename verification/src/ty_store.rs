//! [`TyStore`]: a heterogeneous container that holds at most one value of
//! each type, found by the type alone.

use crate::any_box::{type_id_of, type_key, type_of};
use crate::content::{holds, is_a, value_of, Content};
use crate::fx_map::{map_clear, map_contains, map_get, map_get_mut, map_insert, map_new, map_remove};
use crate::obj::ObjInner;
use fxhash::FxHashMap;
use std::any::TypeId;
use vstd::prelude::*;

verus! {

/// Every entry is filed under the identity of the type of its value.
pub open spec fn well_keyed(m: Map<TypeId, Content>) -> bool {
    forall|k: TypeId| #[trigger] m.contains_key(k) ==> type_of(m[k]) == k
}

/// What a store with the entries `m` has for `T`: its value, or nothing.
pub open spec fn lookup<T: 'static>(m: Map<TypeId, Content>) -> Option<T> {
    if m.contains_key(type_key::<T>()) {
        Some(value_of::<T>(m[type_key::<T>()]))
    } else {
        None
    }
}

/// `post` is `pre` with the entry for `T` holding `v`, and every other entry
/// as it was.
pub open spec fn stored<T: 'static>(
    pre: Map<TypeId, Content>,
    post: Map<TypeId, Content>,
    v: T,
) -> bool {
    &&& post.dom() == pre.dom().insert(type_key::<T>())
    &&& holds(post[type_key::<T>()], v)
    &&& forall|k: TypeId|
        k != type_key::<T>() && #[trigger] pre.contains_key(k) ==> post[k] == pre[k]
}

/// A mapping from type identity to one erased cell per type.
pub struct TyStore {
    map: FxHashMap<TypeId, ObjInner>,
}

impl TyStore {
    /// The entries of the store: for each type that has a value, its content.
    pub closed spec fn view(&self) -> Map<TypeId, Content> {
        entries(self.map@)
    }

    /// The store's invariant: see [`well_keyed`].
    pub open spec fn wf(&self) -> bool {
        well_keyed(self@)
    }

    /// An empty store.
    pub fn new() -> (s: Self)
        ensures
            s@ == Map::<TypeId, Content>::empty(),
            s.wf(),
    {
        let s = TyStore { map: map_new() };
        assert(s@ =~= Map::<TypeId, Content>::empty());
        s
    }

    /// Destroys all entries.
    pub fn clear(&mut self)
        ensures
            final(self)@ == Map::<TypeId, Content>::empty(),
            final(self).wf(),
    {
        map_clear(&mut self.map);
        assert(self@ =~= Map::<TypeId, Content>::empty());
    }

    /// The value stored for `T`, if there is one.
    pub fn get<T>(&self) -> (r: Option<&T>) where T: Sized + 'static
        requires
            self.wf(),
        ensures
            r == match lookup::<T>(self@) {
                Some(v) => Some(&v),
                None => None,
            },
    {
        let id = type_id_of::<T>();
        assert(id == type_key::<T>()) by {
            lemma_key_of_type::<T>(id);
        }
        match map_get(&self.map, &id) {
            Some(o) => {
                assert(self@.contains_key(id) && self@[id] == o@);
                Some(o.get_unchecked())
            },
            None => None,
        }
    }

    /// The value stored for `T`, if there is one, to be changed in place.
    pub fn get_mut<T>(&mut self) -> (r: Option<&mut T>) where T: Sized + 'static
        requires
            old(self).wf(),
        ensures
            match r {
                Some(v) => lookup::<T>(old(self)@) == Some(*v) && stored(
                    old(self)@,
                    final(self)@,
                    *final(v),
                ),
                None => lookup::<T>(old(self)@) == None::<T> && final(self)@ == old(self)@,
            },
            final(self).wf(),
    {
        let id = type_id_of::<T>();
        assert(id == type_key::<T>()) by {
            lemma_key_of_type::<T>(id);
        }
        let ghost pre = self.map@;
        match map_get_mut(&mut self.map, &id) {
            Some(o) => {
                let v = o.get_unchecked_mut();
                proof {
                    lemma_entry_replaced::<T>(pre, pre, id, after_borrow(*o), *final(v));
                }
                Some(v)
            },
            None => None,
        }
    }

    /// The value stored for `T`; if there is none, `init` is called once and
    /// what it returns is stored first. `init` is not called when a value is
    /// already there.
    pub fn get_mut_or_init<T, F>(&mut self, init: F) -> (r: &mut T) where
        F: FnOnce() -> T,
        T: Sized + 'static,

        requires
            old(self).wf(),
            lookup::<T>(old(self)@) is None ==> init.requires(()),
        ensures
            match lookup::<T>(old(self)@) {
                Some(v) => *r == v,
                None => init.ensures((), *r),
            },
            stored(old(self)@, final(self)@, *final(r)),
            final(self).wf(),
    {
        let id = type_id_of::<T>();
        assert(id == type_key::<T>()) by {
            lemma_key_of_type::<T>(id);
        }
        let ghost pre = self.map@;
        if !map_contains(&self.map, &id) {
            let val = init();
            let cell = ObjInner::new(val);
            map_insert(&mut self.map, id, cell);
        }
        let ghost mid = self.map@;
        match map_get_mut(&mut self.map, &id) {
            Some(o) => {
                let v = o.get_unchecked_mut();
                proof {
                    lemma_entry_replaced::<T>(pre, mid, id, after_borrow(*o), *final(v));
                }
                v
            },
            None => vstd::pervasive::unreached(),
        }
    }

    /// Stores `val` for `T` unless a value is already there. Returns the value
    /// now stored, and whether it is `val`: an earlier value is never
    /// overwritten, and `val` is then dropped.
    pub fn insert<T>(&mut self, val: T) -> (r: (&mut T, bool)) where T: Sized + 'static
        requires
            old(self).wf(),
        ensures
            r.1 == (lookup::<T>(old(self)@) is None),
            *r.0 == match lookup::<T>(old(self)@) {
                Some(v) => v,
                None => val,
            },
            stored(old(self)@, final(self)@, *final(r.0)),
            final(self).wf(),
    {
        let id = type_id_of::<T>();
        assert(id == type_key::<T>()) by {
            lemma_key_of_type::<T>(id);
        }
        let ghost pre = self.map@;
        let inserted = !map_contains(&self.map, &id);
        if inserted {
            let cell = ObjInner::new(val);
            map_insert(&mut self.map, id, cell);
        }
        let ghost mid = self.map@;
        match map_get_mut(&mut self.map, &id) {
            Some(o) => {
                let v = o.get_unchecked_mut();
                proof {
                    lemma_entry_replaced::<T>(pre, mid, id, after_borrow(*o), *final(v));
                }
                (v, inserted)
            },
            None => vstd::pervasive::unreached(),
        }
    }

    /// Removes the value stored for `T` and hands it over, if there is one.
    pub fn take<T>(&mut self) -> (r: Option<T>) where T: Sized + 'static
        requires
            old(self).wf(),
        ensures
            r == lookup::<T>(old(self)@),
            final(self)@ == old(self)@.remove(type_key::<T>()),
            final(self).wf(),
    {
        let id = type_id_of::<T>();
        assert(id == type_key::<T>()) by {
            lemma_key_of_type::<T>(id);
        }
        let ghost pre = self@;
        let taken = map_remove(&mut self.map, &id);
        assert(self@ =~= pre.remove(id));
        match taken {
            Some(o) => {
                assert(pre.contains_key(id) && pre[id] == o@);
                Some(o.into_inner_unchecked())
            },
            None => None,
        }
    }
}

impl Default for TyStore {
    fn default() -> (s: Self)
        ensures
            s@ == Map::<TypeId, Content>::empty(),
            s.wf(),
    {
        TyStore::new()
    }
}

/// An identity that belongs to exactly the contents that carry a `T` is the
/// identity of `T`.
proof fn lemma_key_of_type<T: 'static>(id: TypeId)
    requires
        forall|c: Content| is_a::<T>(c) <==> #[trigger] type_of(c) == id,
    ensures
        id == type_key::<T>(),
{
    let c = crate::content::content_of::<T>(arbitrary());
    assert(is_a::<T>(c));
}

/// The contents of the cells of a map of cells.
spec fn entries(raw: Map<TypeId, ObjInner>) -> Map<TypeId, Content> {
    raw.map_values(|o: ObjInner| o@)
}

/// Putting a cell that holds `v` under the identity of `T`, into a map that
/// differs from `pre` at most there, is storing `v`, and keeps the entries
/// well keyed.
proof fn lemma_entry_replaced<T: 'static>(
    pre: Map<TypeId, ObjInner>,
    mid: Map<TypeId, ObjInner>,
    id: TypeId,
    cell: ObjInner,
    v: T,
)
    requires
        id == type_key::<T>(),
        forall|c: Content| is_a::<T>(c) <==> #[trigger] type_of(c) == id,
        well_keyed(entries(pre)),
        mid == pre || mid == pre.insert(id, mid[id]),
        holds(cell@, v),
    ensures
        stored(entries(pre), entries(mid.insert(id, cell)), v),
        well_keyed(entries(mid.insert(id, cell))),
{
    let post = entries(mid.insert(id, cell));
    assert(post.dom() =~= entries(pre).dom().insert(id));
    assert forall|k: TypeId| #[trigger] post.contains_key(k) implies type_of(post[k]) == k by {
        if k != id {
            assert(entries(pre).contains_key(k));
        }
    }
}

} // verus!
