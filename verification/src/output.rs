//! The owned digital-output resource.

use vstd::prelude::*;

use crate::gpio::flip;
use crate::gpio::output_slot;
use crate::gpio::CriticalSection;
use crate::gpio::Gpio;
use crate::gpio::Level;
use crate::gpio::OutputArgs;
use crate::gpio::Pin;
use crate::gpio::PinId;

verus! {

/// Exclusive owner of one line in the "configured as digital output"
/// state.
///
/// Only one instance may exist at a time per physical line: the safe
/// constructor consumes the line's non-duplicable [`Pin`] token, and
/// [`Output::free`] is the only way to get the token back.
#[derive(Debug)]
pub struct Output {
    pin: Pin,
}

impl Output {
    /// The identity of the line this resource owns.
    pub closed spec fn id(&self) -> PinId {
        self.pin.id()
    }

    /// Claims the line as a digital output, applying the descriptor's
    /// drive strength, topology, pull, and initial level.
    ///
    /// Possession of `pin` proves that no other live owner exists; the
    /// critical-section token proves that no concurrent claim is in
    /// flight.
    pub fn new(pin: Pin, args: &OutputArgs, cs: &CriticalSection, bank: &mut Gpio) -> (r: Output)
        ensures
            r.id() == pin.id(),
            *final(bank) == old(bank).with_slot(
                pin.id(),
                output_slot(old(bank).slot(pin.id()).claimed, *args),
            ),
    {
        bank.configure_output(&pin, args, cs);
        Output { pin }
    }

    /// Drives the line to a logic level.  Infallible: a digital output
    /// write has no hardware failure mode.
    pub fn set_level(&mut self, bank: &mut Gpio, level: Level)
        ensures
            *final(self) == *old(self),
            *final(bank) == old(bank).with_level(old(self).id(), level),
        no_unwind
    {
        bank.write_level(&self.pin, level);
    }

    /// Drives the line high.  Infallible.
    pub fn set_high(&mut self, bank: &mut Gpio)
        ensures
            *final(self) == *old(self),
            *final(bank) == old(bank).with_level(old(self).id(), Level::High),
    {
        self.set_level(bank, Level::High);
    }

    /// Drives the line low.  Infallible.
    pub fn set_low(&mut self, bank: &mut Gpio)
        ensures
            *final(self) == *old(self),
            *final(bank) == old(bank).with_level(old(self).id(), Level::Low),
    {
        self.set_level(bank, Level::Low);
    }

    /// Reads the line's current level and drives its complement.
    /// Infallible.
    pub fn toggle(&mut self, bank: &mut Gpio)
        ensures
            *final(self) == *old(self),
            *final(bank) == old(bank).with_level(
                old(self).id(),
                flip(old(bank).level_of(old(self).id())),
            ),
    {
        let cur = bank.read_level(self.pin.id());
        let inverted = crate::gpio::flip_level(cur);
        bank.write_level(&self.pin, inverted);
    }

    /// The level currently present on the owned line.
    pub fn level(&self, bank: &Gpio) -> (r: Level)
        ensures
            r == bank.level_of(self.id()),
    {
        bank.read_level(self.pin.id())
    }

    /// Consumes the resource and returns the bare identity token for reuse
    /// by a different configuration.  Performs no register writes: the
    /// line's electrical state is left as-is until the next owner
    /// reconfigures it.
    pub fn free(self) -> (r: Pin)
        ensures
            r.id() == self.id(),
    {
        self.pin
    }

    /// Escape hatch: manufactures an owned output over whatever electrical
    /// configuration the line currently happens to be in, bypassing the
    /// critical-section and singleton checks entirely.
    ///
    /// The caller must guarantee, by program structure and not by any
    /// check this function performs, that no other live owner of the same
    /// line exists; no configuration is performed.
    pub fn steal(id: PinId) -> (r: Output)
        ensures
            r.id() == id,
    {
        Output { pin: Pin::steal(id) }
    }
}

} // verus!
