//! Partial overlays: a value can absorb a partial counterpart of itself,
//! keeping what the partial leaves out. Leaf types absorb a plain
//! replacement; aggregates implement the trait field by field, using an
//! optional partial per field.

use vstd::prelude::*;

verus! {

/// A type that can absorb a partial overlay of itself.
pub trait Partial {
    /// The overlay: for a leaf, the value itself; for an aggregate, a
    /// struct of optional overlays.
    type Partial;

    /// Absorb the overlay.
    fn apply_partial(&mut self, partial: Self::Partial);
}

/// The overlay type of `T`.
pub type PartialOf<T> = <T as Partial>::Partial;

impl Partial for i8 {
    type Partial = i8;

    fn apply_partial(&mut self, partial: i8) {
        *self = partial;
    }
}

impl Partial for u8 {
    type Partial = u8;

    fn apply_partial(&mut self, partial: u8) {
        *self = partial;
    }
}

impl Partial for i16 {
    type Partial = i16;

    fn apply_partial(&mut self, partial: i16) {
        *self = partial;
    }
}

impl Partial for u16 {
    type Partial = u16;

    fn apply_partial(&mut self, partial: u16) {
        *self = partial;
    }
}

impl Partial for i32 {
    type Partial = i32;

    fn apply_partial(&mut self, partial: i32) {
        *self = partial;
    }
}

impl Partial for u32 {
    type Partial = u32;

    fn apply_partial(&mut self, partial: u32) {
        *self = partial;
    }
}

impl Partial for i64 {
    type Partial = i64;

    fn apply_partial(&mut self, partial: i64) {
        *self = partial;
    }
}

impl Partial for u64 {
    type Partial = u64;

    fn apply_partial(&mut self, partial: u64) {
        *self = partial;
    }
}

impl Partial for isize {
    type Partial = isize;

    fn apply_partial(&mut self, partial: isize) {
        *self = partial;
    }
}

impl Partial for usize {
    type Partial = usize;

    fn apply_partial(&mut self, partial: usize) {
        *self = partial;
    }
}

impl Partial for String {
    type Partial = String;

    fn apply_partial(&mut self, partial: String) {
        *self = partial;
    }
}

} // verus!
