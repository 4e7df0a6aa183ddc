//! The hash map that the type-indexed store is built on: `fxhash::FxHashMap`
//! keyed by `TypeId`.
//!
//! `TypeId` hashes and compares deterministically and `FxHasher` is a pure
//! function of the bytes written to it, so the map behaves as the finite map
//! that vstd gives as its view. vstd states that only for the key types and
//! hashers it knows; for this key and this hasher it is stated here, and
//! believed.

use crate::obj::ObjInner;
use fxhash::{FxHashMap, FxHasher};
use std::any::TypeId;
use std::hash::BuildHasherDefault;
use vstd::prelude::*;

verus! {

/// `fxhash::FxHasher`, carried through as an opaque value.
#[verifier::external_type_specification]
#[verifier::external_body]
pub struct ExFxHasher(FxHasher);

/// `std::hash::BuildHasherDefault`, carried through as an opaque value.
#[verifier::external_type_specification]
#[verifier::external_body]
#[verifier::reject_recursive_types(H)]
pub struct ExBuildHasherDefault<H>(BuildHasherDefault<H>);

/// `FxHashMap::default`: a map without entries.
#[verifier::external_body]
pub(crate) fn map_new() -> (m: FxHashMap<TypeId, ObjInner>)
    ensures
        m@.dom() == Set::<TypeId>::empty(),
{
    FxHashMap::default()
}

/// `HashMap::contains_key`: whether the map has an entry under `k`.
#[verifier::external_body]
pub(crate) fn map_contains(m: &FxHashMap<TypeId, ObjInner>, k: &TypeId) -> (r: bool)
    ensures
        r == m@.contains_key(*k),
{
    m.contains_key(k)
}

/// `HashMap::get`: the entry under `k`, if there is one.
#[verifier::external_body]
pub(crate) fn map_get<'a>(m: &'a FxHashMap<TypeId, ObjInner>, k: &TypeId) -> (r: Option<
    &'a ObjInner,
>)
    ensures
        r == if m@.contains_key(*k) {
            Some(&m@[*k])
        } else {
            None
        },
{
    m.get(k)
}

/// `HashMap::get_mut`: the entry under `k`, if there is one, to be changed in
/// place; no other entry changes.
#[verifier::external_body]
pub(crate) fn map_get_mut<'a>(m: &'a mut FxHashMap<TypeId, ObjInner>, k: &TypeId) -> (r: Option<
    &'a mut ObjInner,
>)
    ensures
        match r {
            Some(v) => old(m)@.contains_key(*k) && *v == old(m)@[*k] && final(m)@ == old(
                m,
            )@.insert(*k, *final(v)),
            None => !old(m)@.contains_key(*k) && final(m)@ == old(m)@,
        },
{
    m.get_mut(k)
}

/// `HashMap::insert`: afterwards `k` maps to `v`; what `k` mapped to before
/// is returned.
#[verifier::external_body]
pub(crate) fn map_insert(m: &mut FxHashMap<TypeId, ObjInner>, k: TypeId, v: ObjInner) -> (r:
    Option<ObjInner>)
    ensures
        final(m)@ == old(m)@.insert(k, v),
        r == if old(m)@.contains_key(k) {
            Some(old(m)@[k])
        } else {
            None
        },
{
    m.insert(k, v)
}

/// `HashMap::remove`: the entry under `k` leaves the map and is returned.
#[verifier::external_body]
pub(crate) fn map_remove(m: &mut FxHashMap<TypeId, ObjInner>, k: &TypeId) -> (r: Option<ObjInner>)
    ensures
        final(m)@ == old(m)@.remove(*k),
        r == if old(m)@.contains_key(*k) {
            Some(old(m)@[*k])
        } else {
            None
        },
{
    m.remove(k)
}

/// `HashMap::clear`: afterwards the map has no entries.
#[verifier::external_body]
pub(crate) fn map_clear(m: &mut FxHashMap<TypeId, ObjInner>)
    ensures
        final(m)@.dom() == Set::<TypeId>::empty(),
{
    m.clear()
}

} // verus!
