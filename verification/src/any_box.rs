//! The one place where a value loses and regains its type.
//!
//! Everything here rests on `std::any`: the contracts of this file are
//! believed, not proved. The rest of the crate is verified against them.

use crate::content::{holds, is_a, value_of, Content};
use std::any::{Any, TypeId};
use vstd::prelude::*;

verus! {

/// `std::any::TypeId`, carried through as an opaque value.
#[verifier::external_type_specification]
#[verifier::external_body]
pub struct ExTypeId(TypeId);

/// An owned heap value behind `Box<dyn Any>`. Verus cannot look inside a
/// `dyn Any`, so the box is hidden and read only through the functions below.
#[verifier::external_body]
pub struct AnyBox {
    inner: Box<dyn Any>,
}

/// What a box holds.
pub uninterp spec fn boxed_content(b: AnyBox) -> Content;

/// The identity of the type of the value that a content carries: what
/// `Any::type_id` answers for it.
pub uninterp spec fn type_of(c: Content) -> TypeId;

/// The identity of `T`: the type of every content that carries a `T`.
pub open spec fn type_key<T: 'static>() -> TypeId {
    type_of(crate::content::content_of::<T>(arbitrary()))
}

/// `Box::new` followed by the unsizing to `Box<dyn Any>`: the box holds `v`
/// and nothing else.
#[verifier::external_body]
pub(crate) fn erase<T: 'static>(v: T) -> (b: AnyBox)
    ensures
        holds(boxed_content(b), v),
{
    AnyBox { inner: Box::new(v) }
}

/// `<dyn Any>::downcast_ref`: a reference to the held value if it is a `T`,
/// `None` if it is of another type.
#[verifier::external_body]
pub(crate) fn peek<T: 'static>(b: &AnyBox) -> (r: Option<&T>)
    ensures
        r == if is_a::<T>(boxed_content(*b)) {
            Some(&value_of::<T>(boxed_content(*b)))
        } else {
            None
        },
{
    b.inner.downcast_ref::<T>()
}

/// `<dyn Any>::downcast_mut`: a mutable reference to the held value if it is
/// a `T`; the box then holds whatever is written through it. `None`, and the
/// box untouched, if the held value is of another type. The call compares two
/// type identities and does not unwind.
#[verifier::external_body]
pub(crate) fn peek_mut<T: 'static>(b: &mut AnyBox) -> (r: Option<&mut T>)
    ensures
        match r {
            Some(v) => holds(boxed_content(*old(b)), *v) && holds(
                boxed_content(*final(b)),
                *final(v),
            ),
            None => !is_a::<T>(boxed_content(*old(b))) && *final(b) == *old(b),
        },
    no_unwind
{
    b.inner.downcast_mut::<T>()
}

/// `Box<dyn Any>::downcast`: the held value moved out if it is a `T`, else
/// the same box handed back.
#[verifier::external_body]
pub(crate) fn restore<T: 'static>(b: AnyBox) -> (r: Result<T, AnyBox>)
    ensures
        match r {
            Ok(v) => holds(boxed_content(b), v),
            Err(back) => !is_a::<T>(boxed_content(b)) && back == b,
        },
{
    match b.inner.downcast::<T>() {
        Ok(v) => Ok(*v),
        Err(inner) => Err(AnyBox { inner }),
    }
}

/// An owned heap value behind `Box<dyn Any + Send + Sync>`: as [`AnyBox`],
/// for values that may cross threads.
#[verifier::external_body]
pub struct SyncAnyBox {
    inner: Box<dyn Any + Send + Sync>,
}

/// What a thread-safe box holds.
pub uninterp spec fn sync_boxed_content(b: SyncAnyBox) -> Content;

/// `Box::new` followed by the unsizing to `Box<dyn Any + Send + Sync>`: the
/// box holds `v` and nothing else.
#[verifier::external_body]
pub(crate) fn erase_sync<T: Send + Sync + 'static>(v: T) -> (b: SyncAnyBox)
    ensures
        holds(sync_boxed_content(b), v),
{
    SyncAnyBox { inner: Box::new(v) }
}

/// `<dyn Any + Send + Sync>::downcast_ref`: a reference to the held value if
/// it is a `T`, `None` if it is of another type.
#[verifier::external_body]
pub(crate) fn peek_sync<T: 'static>(b: &SyncAnyBox) -> (r: Option<&T>)
    ensures
        r == if is_a::<T>(sync_boxed_content(*b)) {
            Some(&value_of::<T>(sync_boxed_content(*b)))
        } else {
            None
        },
{
    b.inner.downcast_ref::<T>()
}

/// `<dyn Any + Send + Sync>::downcast_mut`: a mutable reference to the held
/// value if it is a `T`; the box then holds whatever is written through it.
/// `None`, and the box untouched, if the held value is of another type.
#[verifier::external_body]
pub(crate) fn peek_mut_sync<T: 'static>(b: &mut SyncAnyBox) -> (r: Option<&mut T>)
    ensures
        match r {
            Some(v) => holds(sync_boxed_content(*old(b)), *v) && holds(
                sync_boxed_content(*final(b)),
                *final(v),
            ),
            None => !is_a::<T>(sync_boxed_content(*old(b))) && *final(b) == *old(b),
        },
{
    b.inner.downcast_mut::<T>()
}

/// `Box<dyn Any + Send + Sync>::downcast`: the held value moved out if it is
/// a `T`, else the same box handed back.
#[verifier::external_body]
pub(crate) fn restore_sync<T: 'static>(b: SyncAnyBox) -> (r: Result<T, SyncAnyBox>)
    ensures
        match r {
            Ok(v) => holds(sync_boxed_content(b), v),
            Err(back) => !is_a::<T>(sync_boxed_content(b)) && back == b,
        },
{
    match b.inner.downcast::<T>() {
        Ok(v) => Ok(*v),
        Err(inner) => Err(SyncAnyBox { inner }),
    }
}

/// `TypeId::of`: the identity of `T`, which is the type of exactly those
/// contents that carry a `T`.
#[verifier::external_body]
pub(crate) fn type_id_of<T: 'static>() -> (id: TypeId)
    ensures
        forall|c: Content| is_a::<T>(c) <==> #[trigger] type_of(c) == id,
{
    TypeId::of::<T>()
}

/// `TypeId`'s `==`: two identities compare equal exactly when they are the
/// same identity.
#[verifier::external_body]
pub(crate) fn same_type_id(a: &TypeId, b: &TypeId) -> (r: bool)
    ensures
        r == (*a == *b),
{
    a == b
}

} // verus!
