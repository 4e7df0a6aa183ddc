//! Erased cells: one owned value of a type that the cell itself does not name.
//!
//! [`ObjInner`] is the bare cell, [`UnsafeObj`] the cell whose caller vouches
//! for the type, and [`Obj`] the cell that remembers the type and checks it.

use crate::any_box::{
    boxed_content, erase, peek, peek_mut, restore, same_type_id, type_id_of, type_of, AnyBox,
};
use crate::content::{holds, is_a, value_of, Content};
use std::any::TypeId;
use vstd::prelude::*;

verus! {

/// The bare cell: it owns one value and knows nothing of its type.
pub struct ObjInner {
    cell: AnyBox,
}

impl ObjInner {
    /// What the cell holds.
    pub closed spec fn view(&self) -> Content {
        boxed_content(self.cell)
    }

    /// Moves `val` into a new cell.
    pub fn new<T>(val: T) -> (s: Self) where T: Sized + 'static
        ensures
            holds(s@, val),
    {
        ObjInner { cell: erase(val) }
    }

    /// Borrows the held value. The cell must hold a `T`.
    pub fn get_unchecked<T>(&self) -> (r: &T) where T: Sized + 'static
        requires
            is_a::<T>(self@),
        ensures
            *r == value_of::<T>(self@),
    {
        match peek::<T>(&self.cell) {
            Some(v) => v,
            None => vstd::pervasive::unreached(),
        }
    }

    /// Borrows the held value mutably. The cell must hold a `T`; afterwards it
    /// holds whatever was written through the reference.
    pub fn get_unchecked_mut<T>(&mut self) -> (r: &mut T) where T: Sized + 'static
        requires
            is_a::<T>(old(self)@),
        ensures
            *r == value_of::<T>(old(self)@),
            holds(final(self)@, *final(r)),
        no_unwind
    {
        match peek_mut::<T>(&mut self.cell) {
            Some(v) => v,
            None => vstd::pervasive::unreached(),
        }
    }

    /// Takes the held value out, consuming the cell. The cell must hold a `T`.
    pub fn into_inner_unchecked<T>(self) -> (r: T) where T: Sized + 'static
        requires
            is_a::<T>(self@),
        ensures
            r == value_of::<T>(self@),
    {
        match restore::<T>(self.cell) {
            Ok(v) => v,
            Err(_) => vstd::pervasive::unreached(),
        }
    }
}

/// A cell whose caller names the type on every access.
pub struct UnsafeObj {
    inner: ObjInner,
}

impl UnsafeObj {
    /// What the cell holds.
    pub closed spec fn view(&self) -> Content {
        self.inner@
    }

    /// Moves `val` into a new cell.
    pub fn new<T>(val: T) -> (s: Self) where T: Sized + 'static
        ensures
            holds(s@, val),
    {
        UnsafeObj { inner: ObjInner::new(val) }
    }

    /// Borrows the held value. `T` must be the type the cell was made with.
    pub fn get_unchecked<T>(&self) -> (r: &T) where T: Sized + 'static
        requires
            is_a::<T>(self@),
        ensures
            *r == value_of::<T>(self@),
    {
        self.inner.get_unchecked()
    }

    /// Borrows the held value mutably. `T` must be the type the cell was made
    /// with; afterwards the cell holds whatever was written.
    pub fn get_unchecked_mut<T>(&mut self) -> (r: &mut T) where T: Sized + 'static
        requires
            is_a::<T>(old(self)@),
        ensures
            *r == value_of::<T>(old(self)@),
            holds(final(self)@, *final(r)),
    {
        self.inner.get_unchecked_mut()
    }

    /// Takes the held value out. `T` must be the type the cell was made with.
    pub fn into_inner_unchecked<T>(self) -> (r: T) where T: Sized + 'static
        requires
            is_a::<T>(self@),
        ensures
            r == value_of::<T>(self@),
    {
        self.inner.into_inner_unchecked()
    }
}

/// A cell that records the type of its value and answers only to that type.
pub struct Obj {
    inner: ObjInner,
    tid: TypeId,
}

impl Obj {
    /// The recorded type is the type of the held value.
    #[verifier::type_invariant]
    spec fn wf(&self) -> bool {
        self.tid == type_of(self.inner@)
    }

    /// What the cell holds.
    pub closed spec fn view(&self) -> Content {
        self.inner@
    }

    /// Moves `val` into a new cell and records its type.
    pub fn new<T>(val: T) -> (s: Self) where T: Sized + 'static
        ensures
            holds(s@, val),
    {
        let tid = type_id_of::<T>();
        Obj { inner: ObjInner::new(val), tid }
    }

    /// Borrows the held value if it is a `T`.
    pub fn try_get<T>(&self) -> (r: Option<&T>) where T: Sized + 'static
        ensures
            r == if is_a::<T>(self@) {
                Some(&value_of::<T>(self@))
            } else {
                None
            },
    {
        proof {
            use_type_invariant(self);
        }
        let id = type_id_of::<T>();
        if same_type_id(&id, &self.tid) {
            Some(self.inner.get_unchecked())
        } else {
            None
        }
    }

    /// Borrows the held value mutably if it is a `T`; the cell then holds
    /// whatever is written. Otherwise the cell is left as it was.
    pub fn try_get_mut<T>(&mut self) -> (r: Option<&mut T>) where T: Sized + 'static
        ensures
            match r {
                Some(v) => holds(old(self)@, *v) && holds(final(self)@, *final(v)),
                None => !is_a::<T>(old(self)@) && final(self)@ == old(self)@,
            },
    {
        proof {
            use_type_invariant(&*self);
        }
        let id = type_id_of::<T>();
        if same_type_id(&id, &self.tid) {
            Some(self.inner.get_unchecked_mut())
        } else {
            None
        }
    }

    /// Takes the held value out if it is a `T`; otherwise hands the cell back
    /// unchanged.
    pub fn try_into_inner<T>(self) -> (r: Result<T, Self>) where T: Sized + 'static
        ensures
            match r {
                Ok(v) => holds(self@, v),
                Err(back) => !is_a::<T>(self@) && back@ == self@,
            },
    {
        proof {
            use_type_invariant(&self);
        }
        let id = type_id_of::<T>();
        if same_type_id(&id, &self.tid) {
            Ok(self.inner.into_inner_unchecked())
        } else {
            Err(self)
        }
    }
}

} // verus!
