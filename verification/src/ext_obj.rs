//! Extensible records: a schema is a growing list of typed slots, a handle
//! names one slot, and an instance holds one value per slot.

use crate::content::{holds, is_a, value_of, Content};
use crate::dynobj::DynObj;
use std::marker::PhantomData;
use vstd::prelude::*;

verus! {

/// How one slot of a schema comes to its first value.
trait SlotInit: Send + Sync {
    /// Whether `c` is a content that this slot may start with.
    spec fn makes(&self, c: Content) -> bool;

    /// Makes the slot's first value, in a cell of its own.
    fn init(&self) -> (cell: DynObj)
        ensures
            self.makes(cell@),
    ;
}

/// The slot of a field of type `T` that starts as `T::default()`.
struct DefaultSlot<T> {
    marker: PhantomData<T>,
}

impl<T: Default + Send + Sync + 'static> SlotInit for DefaultSlot<T> {
    spec fn makes(&self, c: Content) -> bool {
        is_a::<T>(c) && call_ensures(T::default, (), value_of::<T>(c))
    }

    fn init(&self) -> (cell: DynObj) {
        init_default::<T>()
    }
}

/// A cell that holds `T::default()`.
pub fn init_default<T: Default + Send + Sync + 'static>() -> (cell: DynObj)
    ensures
        is_a::<T>(cell@),
        call_ensures(T::default, (), value_of::<T>(cell@)),
{
    DynObj::new(T::default())
}

/// One entry of a schema.
pub struct SlotDef {
    init: Box<dyn SlotInit>,
}

impl SlotDef {
    /// Whether `c` is a content that this slot may start with.
    pub closed spec fn makes(&self, c: Content) -> bool {
        self.init.makes(c)
    }

    /// The entry for a field of type `T`.
    pub fn of<T: Default + Send + Sync + 'static>() -> (d: Self)
        ensures
            forall|c: Content|
                #[trigger] d.makes(c) <==> is_a::<T>(c) && call_ensures(
                    T::default,
                    (),
                    value_of::<T>(c),
                ),
    {
        let slot = DefaultSlot::<T> { marker: PhantomData };
        SlotDef { init: Box::new(slot) }
    }

    /// Makes the slot's first value.
    pub fn make(&self) -> (cell: DynObj)
        ensures
            self.makes(cell@),
    {
        self.init.init()
    }
}

/// The schema registry: the slots of one schema, in the order in which they
/// were registered. It only grows.
pub struct Defs<O> {
    slots: Vec<SlotDef>,
    schema: PhantomData<O>,
}

impl<O> Defs<O> {
    /// The registered slots, oldest first.
    pub closed spec fn view(&self) -> Seq<SlotDef> {
        self.slots@
    }

    /// A schema without slots.
    pub fn new() -> (defs: Self)
        ensures
            defs@.len() == 0,
    {
        Defs { slots: Vec::new(), schema: PhantomData }
    }

    /// The number of registered slots.
    pub fn len(&self) -> (n: usize)
        ensures
            n == self@.len(),
    {
        self.slots.len()
    }
}

/// Whether the slot `d` is that of a field of type `T`: it starts with a `T`
/// that `T::default()` may return, and with nothing else.
pub open spec fn is_slot_of<T: Default + 'static>(d: SlotDef) -> bool {
    forall|c: Content|
        #[trigger] d.makes(c) <==> is_a::<T>(c) && call_ensures(T::default, (), value_of::<T>(c))
}

/// A field handle: the position of one slot in the schema `O`, with the
/// slot's value type `T` carried in the handle's type.
pub struct Var<O, T> {
    index: usize,
    schema: PhantomData<O>,
    value: PhantomData<T>,
}

impl<O, T> Var<O, T> {
    /// The position of the slot that the handle names.
    pub closed spec fn index(&self) -> nat {
        self.index as nat
    }
}

impl<O, T> Clone for Var<O, T> {
    fn clone(&self) -> (r: Self)
        ensures
            r == *self,
    {
        *self
    }
}

impl<O, T> Copy for Var<O, T> {

}

impl<O, T> PartialEq for Var<O, T> {
    fn eq(&self, other: &Self) -> (r: bool) {
        self.index == other.index
    }
}

impl<O, T> vstd::std_specs::cmp::PartialEqSpecImpl for Var<O, T> {
    open spec fn obeys_eq_spec() -> bool {
        true
    }

    open spec fn eq_spec(&self, other: &Self) -> bool {
        self.index() == other.index()
    }
}

impl<O, T> Eq for Var<O, T> {

}

impl<O, T> std::hash::Hash for Var<O, T> {
    /// `usize::hash` on the slot position: handles hash as their positions
    /// do. Nothing is stated of what reaches the hasher.
    #[verifier::external_body]
    fn hash<H: std::hash::Hasher>(&self, state: &mut H) {
        self.index.hash(state);
    }
}

impl<O, T: Default + Send + Sync + 'static> Var<O, T> {
    /// Registers a new slot of type `T` at the end of the schema and returns
    /// its handle. Earlier slots stay where they are.
    pub fn __new(defs: &mut Defs<O>) -> (var: Self)
        ensures
            var.index() == old(defs)@.len(),
            final(defs)@.len() == old(defs)@.len() + 1,
            final(defs)@.subrange(0, old(defs)@.len() as int) == old(defs)@,
            is_slot_of::<T>(final(defs)@[var.index() as int]),
    {
        let index = defs.slots.len();
        defs.slots.push(SlotDef::of::<T>());
        assert(defs@.subrange(0, index as int) =~= old(defs)@);
        Var { index, schema: PhantomData, value: PhantomData }
    }
}

/// A record instance: one value per slot of the schema `O`, as many as the
/// schema had when the instance was made.
pub struct ExtObj<O> {
    slots: Vec<DynObj>,
    schema: PhantomData<O>,
}

impl<O> ExtObj<O> {
    /// What the slots hold, in slot order.
    pub closed spec fn view(&self) -> Seq<Content> {
        Seq::new(self.slots@.len(), |i: int| self.slots@[i]@)
    }

    /// Whether the instance has, at the position that `var` names, a value of
    /// the type that `var` names.
    pub open spec fn has<T: 'static>(&self, var: Var<O, T>) -> bool {
        var.index() < self@.len() && is_a::<T>(self@[var.index() as int])
    }

    /// Makes an instance with one slot per entry of `defs`, each holding what
    /// its entry makes, in registration order.
    pub fn new(defs: &Defs<O>) -> (obj: Self)
        ensures
            obj@.len() == defs@.len(),
            forall|i: int| 0 <= i < defs@.len() ==> defs@[i].makes(#[trigger] obj@[i]),
    {
        let mut slots: Vec<DynObj> = Vec::new();
        let mut i: usize = 0;
        while i < defs.slots.len()
            invariant
                i <= defs.slots@.len(),
                slots@.len() == i,
                forall|j: int| 0 <= j < i ==> defs.slots@[j].makes(#[trigger] slots@[j]@),
            decreases defs.slots@.len() - i,
        {
            let cell = defs.slots[i].make();
            slots.push(cell);
            i = i + 1;
        }
        ExtObj { slots, schema: PhantomData }
    }

    /// The value of the field that `var` names.
    pub fn get<T: Send + 'static>(&self, var: Var<O, T>) -> (r: &T)
        requires
            self.has(var),
        ensures
            *r == value_of::<T>(self@[var.index() as int]),
    {
        self.slots[var.index].get()
    }

    /// The value of the field that `var` names, to be changed in place. No
    /// other field changes.
    pub fn get_mut<T: Send + 'static>(&mut self, var: Var<O, T>) -> (r: &mut T)
        requires
            old(self).has(var),
        ensures
            *r == value_of::<T>(old(self)@[var.index() as int]),
            final(self)@.len() == old(self)@.len(),
            holds(final(self)@[var.index() as int], *final(r)),
            forall|j: int|
                0 <= j < old(self)@.len() && j != var.index() ==> final(self)@[j] == old(self)@[j],
    {
        self.slots[var.index].get_mut()
    }
}

impl<O, T: Send + 'static> std::ops::Index<Var<O, T>> for ExtObj<O> {
    type Output = T;

    fn index(&self, index: Var<O, T>) -> (r: &T)
        ensures
            *r == value_of::<T>(self@[index.index() as int]),
    {
        self.get(index)
    }
}

impl<O, T: Send + 'static> vstd::std_specs::core::IndexSpecImpl<Var<O, T>> for ExtObj<O> {
    open spec fn index_req(&self, index: &Var<O, T>) -> bool {
        self.has(*index)
    }
}

} // verus!
