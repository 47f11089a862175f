//! The owned digital-input resource.

use vstd::prelude::*;

use crate::gpio::input_slot;
use crate::gpio::CriticalSection;
use crate::gpio::Gpio;
use crate::gpio::Level;
use crate::gpio::Pin;
use crate::gpio::PinId;
use crate::gpio::Pull;

verus! {

/// Exclusive owner of one line in the "configured as digital input with
/// pull" state.
///
/// Read-only counterpart of [`crate::output::Output`], with the same
/// lifecycle: the safe constructor consumes the line's non-duplicable
/// [`Pin`] token, and [`Input::free`] is the only way to get it back.
#[derive(Debug)]
pub struct Input {
    pin: Pin,
}

impl Input {
    /// The identity of the line this resource owns.
    pub closed spec fn id(&self) -> PinId {
        self.pin.id()
    }

    /// Claims the line as a digital input with the given pull resistor.
    ///
    /// Possession of `pin` proves that no other live owner exists; the
    /// critical-section token proves that no concurrent claim is in
    /// flight.
    pub fn new(pin: Pin, pull: Pull, cs: &CriticalSection, bank: &mut Gpio) -> (r: Input)
        ensures
            r.id() == pin.id(),
            *final(bank) == old(bank).with_slot(
                pin.id(),
                input_slot(old(bank).slot(pin.id()), pull),
            ),
    {
        bank.configure_input(&pin, pull, cs);
        Input { pin }
    }

    /// The logic level currently read from the line.  Infallible: a
    /// digital input read has no hardware failure mode.
    pub fn level(&self, bank: &Gpio) -> (r: Level)
        ensures
            r == bank.level_of(self.id()),
    {
        bank.read_level(self.pin.id())
    }

    /// Consumes the resource and returns the bare identity token for reuse
    /// by a different configuration.  Performs no register writes.
    pub fn free(self) -> (r: Pin)
        ensures
            r.id() == self.id(),
    {
        self.pin
    }

    /// Escape hatch: manufactures an owned input over whatever electrical
    /// configuration the line currently happens to be in, bypassing the
    /// critical-section and singleton checks entirely.
    ///
    /// The caller must guarantee, by program structure and not by any
    /// check this function performs, that no other live owner of the same
    /// line exists; no configuration is performed.
    pub fn steal(id: PinId) -> (r: Input)
        ensures
            r.id() == id,
    {
        Input { pin: Pin::steal(id) }
    }
}

} // verus!
