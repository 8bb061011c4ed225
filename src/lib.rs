//! Branded lifetimes: zero-cost, unique compile-time identities.
//!
//! `Brand::new` hands a closure a `Brand<'b>` whose lifetime `'b` is chosen
//! fresh for that one call. The closure must accept a brand of every lifetime,
//! and `Brand` is invariant in its lifetime, so the type checker never treats
//! two brands from different calls as the same. The brand has no runtime
//! representation.
//!
//! `FastVec` shows the pattern: it checks an index once, returns a handle that
//! carries the vector's brand, and reads through that handle with no further
//! check. The type checker keeps a handle from being used on another vector;
//! the contracts prove that every read through a handle is in bounds.
mod brand;
mod indexed;

pub use brand::{Brand, WithBrand};
pub use indexed::{
    lemma_copy_keeps_handle, lemma_validate_idempotent, lemma_validate_rejects,
    lemma_validate_round_trip, FastVec, Idx,
};
