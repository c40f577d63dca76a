use vstd::prelude::*;

pub mod crypto;
pub mod encoding;
pub mod entropy;
pub mod enums;
pub mod responses;
pub mod text;

pub use entropy::generate_random_code;

verus! {

/// Records that carry creation and update times.
pub trait Timestamps {
    /// Gives the record a fresh identity: new id, new times, not verified.
    fn reset(&mut self);

    /// Marks the record as updated now.
    fn update(&mut self);
}

} // verus!
pub mod jwt;
