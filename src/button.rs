//! The user button on PA0.

use vstd::prelude::*;

pub mod interrupt;

verus! {

/// A push button read through a digital input.
pub trait Button {
    type Error;

    fn is_pressed(&self) -> Result<bool, Self::Error>;
}

} // verus!
