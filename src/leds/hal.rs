//! Capabilities of a single user LED.

use vstd::prelude::*;

verus! {

/// A two-state output that drives one LED.
///
/// `is_on` is the state last commanded through `on` or `off`; a transport
/// error from the underlying line is reported but does not change what was
/// commanded. `pin_number` is the number of the GPIO pin the handle drives.
pub trait Led {
    type Error;

    spec fn is_on(&self) -> bool;

    spec fn pin_number(&self) -> u8;

    fn on(&mut self) -> (r: Result<(), Self::Error>)
        ensures
            final(self).is_on(),
            final(self).pin_number() == old(self).pin_number(),
    ;

    fn off(&mut self) -> (r: Result<(), Self::Error>)
        ensures
            !final(self).is_on(),
            final(self).pin_number() == old(self).pin_number(),
    ;
}

/// An LED whose line can be flipped in one operation.
pub trait ToggleableLed: Led {
    fn toggle(&mut self) -> (r: Result<(), <Self as Led>::Error>)
        ensures
            final(self).is_on() == !old(self).is_on(),
            final(self).pin_number() == old(self).pin_number(),
    ;
}

} // verus!
