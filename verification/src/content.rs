//! The mathematical model of a value whose type has been erased.
//!
//! A [`Content`] stands for one value of any `'static` type together with
//! that type. Contracts throughout the crate speak of what an erased cell
//! holds through [`holds`], [`is_a`] and [`value_of`].
//!
//! The only type of Verus that ranges over the values of all types is a trait
//! object, so a content is one: `content_of` is the unsizing of a boxed value,
//! of which Verus knows that it is a function of the value and nothing more.
//! That a content determines its value is therefore never derived here. It is
//! what [`holds`] says of one content and one value, and it enters a proof
//! only where a cell was made from that value or handed it out.

use vstd::prelude::*;

verus! {

/// Marks every `'static` type as one whose values a content may carry.
pub trait Stored {
}

impl<T: 'static> Stored for T {
}

/// One value of some `'static` type, with its type forgotten.
pub struct Content {
    boxed: Box<dyn Stored>,
}

/// The content that carries `v`.
pub closed spec fn content_of<T: 'static>(v: T) -> Content {
    Content { boxed: Box::new(v) }
}

/// Whether `c` carries a value of type `T`.
pub open spec fn is_a<T: 'static>(c: Content) -> bool {
    exists|v: T| content_of(v) == c
}

/// The value that `c` carries, read as a `T`. Meaningful only under `is_a::<T>(c)`.
pub open spec fn value_of<T: 'static>(c: Content) -> T {
    choose|v: T| content_of(v) == c
}

/// `c` carries exactly the value `v` of type `T`.
pub open spec fn holds<T: 'static>(c: Content, v: T) -> bool {
    is_a::<T>(c) && value_of::<T>(c) == v
}

} // verus!
