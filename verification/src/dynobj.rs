//! [`DynObj`]: an erased cell for values that may be shared between threads.

use crate::any_box::{
    erase_sync, peek_mut_sync, peek_sync, restore_sync, sync_boxed_content, SyncAnyBox,
};
use crate::content::{holds, is_a, value_of, Content};
use vstd::prelude::*;

verus! {

/// A type-erased, owned value.
///
/// The concrete type is known only where the cell is made; the caller names
/// it again on every access. The cell is `Send` and `Sync` because only such
/// values can be put into it.
pub struct DynObj {
    data: SyncAnyBox,
}

impl DynObj {
    /// What the cell holds.
    pub closed spec fn view(&self) -> Content {
        sync_boxed_content(self.data)
    }

    /// Constructs a new `DynObj` that owns `val`.
    pub fn new<T>(val: T) -> (s: Self) where T: Send + Sync + 'static
        ensures
            holds(s@, val),
    {
        DynObj { data: erase_sync(val) }
    }

    /// Immutably borrows the contained value. `T` must be the type used in
    /// [`DynObj::new`].
    pub fn get<T>(&self) -> (r: &T) where T: Send + 'static
        requires
            is_a::<T>(self@),
        ensures
            *r == value_of::<T>(self@),
    {
        match peek_sync::<T>(&self.data) {
            Some(v) => v,
            None => vstd::pervasive::unreached(),
        }
    }

    /// Mutably borrows the contained value. `T` must be the type used in
    /// [`DynObj::new`]; afterwards the cell holds whatever was written.
    pub fn get_mut<T>(&mut self) -> (r: &mut T) where T: Send + 'static
        requires
            is_a::<T>(old(self)@),
        ensures
            *r == value_of::<T>(old(self)@),
            holds(final(self)@, *final(r)),
    {
        match peek_mut_sync::<T>(&mut self.data) {
            Some(v) => v,
            None => vstd::pervasive::unreached(),
        }
    }

    /// Consumes the cell and returns the owned value. `T` must be the type
    /// used in [`DynObj::new`].
    pub fn into_inner<T>(self) -> (r: T) where T: Send + 'static
        requires
            is_a::<T>(self@),
        ensures
            r == value_of::<T>(self@),
    {
        match restore_sync::<T>(self.data) {
            Ok(v) => v,
            Err(_) => vstd::pervasive::unreached(),
        }
    }
}

} // verus!
