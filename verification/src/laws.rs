//! What holds of the cells, the store and the records whenever their
//! operations are combined, stated over the models that their contracts use.

use crate::any_box::type_key;
use crate::content::{holds, is_a, value_of, Content};
use crate::dynobj::DynObj;
use crate::ext_obj::{is_slot_of, Defs, ExtObj, SlotDef, Var};
use crate::obj::{Obj, UnsafeObj};
use crate::ty_store::{lookup, stored};
use std::any::TypeId;
use vstd::prelude::*;

verus! {

/// A cell that was just made from `v` may be borrowed as a `T`, and the
/// borrow yields `v`.
pub proof fn law_borrow_after_new<T: 'static>(cell: UnsafeObj, v: T)
    requires
        holds(cell@, v),
    ensures
        is_a::<T>(cell@),
        value_of::<T>(cell@) == v,
{
}

/// A thread-safe cell that was just made from `v` may be borrowed as a `T`,
/// and the borrow yields `v`.
pub proof fn law_get_after_new<T: 'static>(cell: DynObj, v: T)
    requires
        holds(cell@, v),
    ensures
        is_a::<T>(cell@),
        value_of::<T>(cell@) == v,
{
}

/// A checked cell that was just made from `v` answers to `T`, with `v`.
pub proof fn law_try_get_after_new<T: 'static>(cell: Obj, v: T)
    requires
        holds(cell@, v),
    ensures
        (if is_a::<T>(cell@) {
            Some(value_of::<T>(cell@))
        } else {
            None
        }) == Some(v),
{
}

/// Round trip: a cell that was just made from `v` may be consumed as a `T`,
/// and what comes out is `v`.
pub proof fn law_into_inner_after_new<T: 'static>(cell: UnsafeObj, v: T)
    requires
        holds(cell@, v),
    ensures
        is_a::<T>(cell@),
        value_of::<T>(cell@) == v,
{
}

/// Round trip: a thread-safe cell that was just made from `v` may be consumed
/// as a `T`, and what comes out is `v`.
pub proof fn law_dyn_into_inner_after_new<T: 'static>(cell: DynObj, v: T)
    requires
        holds(cell@, v),
    ensures
        is_a::<T>(cell@),
        value_of::<T>(cell@) == v,
{
}

/// A cell holds one value: whatever was written into it last is the only
/// value that any later access can yield.
pub proof fn law_cell_holds_one_value<T: 'static>(cell: Content, v: T, w: T)
    requires
        holds(cell, v),
        holds(cell, w),
    ensures
        v == w,
{
}

/// What was stored for `T` is what the store then has for `T`.
pub proof fn law_stored_is_found<T: 'static>(
    pre: Map<TypeId, Content>,
    post: Map<TypeId, Content>,
    v: T,
)
    requires
        stored(pre, post, v),
    ensures
        lookup::<T>(post) == Some(v),
{
    assert(post.contains_key(type_key::<T>()));
}

/// Two values of types with different identities, stored one after the
/// other, are both found again, each under its own type.
pub proof fn law_distinct_types_coexist<T1: 'static, T2: 'static>(
    m0: Map<TypeId, Content>,
    m1: Map<TypeId, Content>,
    m2: Map<TypeId, Content>,
    a: T1,
    b: T2,
)
    requires
        type_key::<T1>() != type_key::<T2>(),
        stored(m0, m1, a),
        stored(m1, m2, b),
    ensures
        lookup::<T1>(m2) == Some(a),
        lookup::<T2>(m2) == Some(b),
{
    assert(m1.contains_key(type_key::<T1>()));
}

/// Inserting into a store that already has a value for `T` leaves that value
/// in place: the store answers for `T`, and for every other type, as before.
pub proof fn law_insert_keeps_first<T: 'static>(
    pre: Map<TypeId, Content>,
    post: Map<TypeId, Content>,
    first: T,
)
    requires
        lookup::<T>(pre) == Some(first),
        stored(pre, post, first),
    ensures
        lookup::<T>(post) == Some(first),
        post.dom() == pre.dom(),
        forall|k: TypeId| k != type_key::<T>() && pre.contains_key(k) ==> post[k] == pre[k],
{
    assert(pre.dom().insert(type_key::<T>()) =~= pre.dom());
}

/// After the value for `T` is taken out of a store, the store has none.
pub proof fn law_take_then_get<T: 'static>(pre: Map<TypeId, Content>)
    ensures
        lookup::<T>(pre.remove(type_key::<T>())) == None::<T>,
{
}

/// Taking the value for `T` out leaves the value for a type of another
/// identity where it is.
pub proof fn law_take_leaves_others<T: 'static, U: 'static>(pre: Map<TypeId, Content>)
    requires
        type_key::<T>() != type_key::<U>(),
    ensures
        lookup::<U>(pre.remove(type_key::<T>())) == lookup::<U>(pre),
{
}

/// A fresh instance has, for every handle of its schema, a value of the
/// handle's type that `T::default()` may return.
pub proof fn law_fresh_instance_holds_defaults<O, T: Default + 'static>(
    defs: Defs<O>,
    obj: ExtObj<O>,
    var: Var<O, T>,
)
    requires
        obj@.len() == defs@.len(),
        forall|i: int| 0 <= i < defs@.len() ==> defs@[i].makes(#[trigger] obj@[i]),
        var.index() < defs@.len(),
        is_slot_of::<T>(defs@[var.index() as int]),
    ensures
        obj.has(var),
        call_ensures(T::default, (), value_of::<T>(obj@[var.index() as int])),
{
    assert(defs@[var.index() as int].makes(obj@[var.index() as int]));
}

/// A slot registered once stays the slot of its type however the schema
/// grows afterwards.
pub proof fn law_schema_only_grows<T: Default + 'static>(
    before: Seq<SlotDef>,
    after: Seq<SlotDef>,
    i: int,
)
    requires
        0 <= i < before.len() <= after.len(),
        after.subrange(0, before.len() as int) == before,
        is_slot_of::<T>(before[i]),
    ensures
        is_slot_of::<T>(after[i]),
{
    assert(after.subrange(0, before.len() as int)[i] == after[i]);
}

/// What was last written through a handle is what is read through it.
pub proof fn law_read_after_write<O, T: 'static>(obj: ExtObj<O>, var: Var<O, T>, written: T)
    requires
        var.index() < obj@.len(),
        holds(obj@[var.index() as int], written),
    ensures
        obj.has(var),
        value_of::<T>(obj@[var.index() as int]) == written,
{
}

} // verus!
