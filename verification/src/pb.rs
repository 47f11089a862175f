//! Push-buttons.

use vstd::prelude::*;

use crate::gpio::input_slot;
use crate::gpio::CriticalSection;
use crate::gpio::Gpio;
use crate::gpio::Level;
use crate::gpio::Pin;
use crate::gpio::PinId;
use crate::gpio::Pull;
use crate::input::Input;

verus! {

/// The pull resistor every push-button is constructed with.  The buttons
/// are wired active-low: an external pull-up holds the line high until the
/// button is pressed.
pub open spec fn button_pull() -> Pull {
    Pull::Up
}

/// The pull resistor every push-button is constructed with.
pub fn button_args() -> (r: Pull)
    ensures
        r == button_pull(),
{
    Pull::Up
}

/// The polarity rule in one place: a level read from a button line means
/// "pushed" exactly when it is the low level.
pub fn pushed_level(l: Level) -> (r: bool)
    ensures
        r == (l == Level::Low),
{
    l == Level::Low
}

/// Capability of a push-button: reporting whether it is currently pressed.
///
/// "Pressed" is the logical state, decoupled from electrical polarity: on
/// this board's active-low wiring a pressed button reads the low level,
/// and `is_pushed` encapsulates that inversion so callers never reason
/// about polarity.
pub trait PushButton {
    /// The identity of the line the button reads.
    spec fn button_id(&self) -> PinId;

    /// Returns `true` if the button is currently being pushed, which is
    /// exactly when the underlying input reads the low level.
    fn is_pushed(&self, bank: &Gpio) -> (r: bool)
        ensures
            r == (bank.level_of(self.button_id()) == Level::Low),
    ;
}

/// Push-button 3.
#[derive(Debug)]
pub struct Pb3 {
    gpio: Input,
}

/// Push-button 2.
#[derive(Debug)]
pub struct Pb2 {
    gpio: Input,
}

/// Push-button 1.
#[derive(Debug)]
pub struct Pb1 {
    gpio: Input,
}

impl PushButton for Pb3 {
    closed spec fn button_id(&self) -> PinId {
        self.gpio.id()
    }

    fn is_pushed(&self, bank: &Gpio) -> (r: bool) {
        let l = self.gpio.level(bank);
        pushed_level(l)
    }
}

impl PushButton for Pb2 {
    closed spec fn button_id(&self) -> PinId {
        self.gpio.id()
    }

    fn is_pushed(&self, bank: &Gpio) -> (r: bool) {
        let l = self.gpio.level(bank);
        pushed_level(l)
    }
}

impl PushButton for Pb1 {
    closed spec fn button_id(&self) -> PinId {
        self.gpio.id()
    }

    fn is_pushed(&self, bank: &Gpio) -> (r: bool) {
        let l = self.gpio.level(bank);
        pushed_level(l)
    }
}

impl Pb3 {
    /// Create a new push-button 3, claiming its line as a pulled-up input.
    pub fn new(a4: Pin, cs: &CriticalSection, bank: &mut Gpio) -> (r: Pb3)
        requires
            a4.id() == PinId::A4,
        ensures
            r.button_id() == PinId::A4,
            *final(bank) == old(bank).with_slot(
                PinId::A4,
                input_slot(old(bank).slot(PinId::A4), button_pull()),
            ),
    {
        Pb3 { gpio: Input::new(a4, Pull::Up, cs, bank) }
    }

    /// Free the identity token from the push-button struct.  Performs no
    /// register writes.
    pub fn free(self) -> (r: Pin)
        ensures
            r.id() == self.button_id(),
    {
        self.gpio.free()
    }

    /// Steal the push-button from whatever is currently using it.
    ///
    /// This will **not** initialize the line.  The caller must guarantee,
    /// by program structure and not by any check this function performs,
    /// that no other live owner of the line exists, and must set the line
    /// up itself.
    pub fn steal() -> (r: Pb3)
        ensures
            r.button_id() == PinId::A4,
    {
        Pb3 { gpio: Input::steal(PinId::A4) }
    }
}

impl Pb2 {
    /// Create a new push-button 2, claiming its line as a pulled-up input.
    pub fn new(a1: Pin, cs: &CriticalSection, bank: &mut Gpio) -> (r: Pb2)
        requires
            a1.id() == PinId::A1,
        ensures
            r.button_id() == PinId::A1,
            *final(bank) == old(bank).with_slot(
                PinId::A1,
                input_slot(old(bank).slot(PinId::A1), button_pull()),
            ),
    {
        Pb2 { gpio: Input::new(a1, Pull::Up, cs, bank) }
    }

    /// Free the identity token from the push-button struct.  Performs no
    /// register writes.
    pub fn free(self) -> (r: Pin)
        ensures
            r.id() == self.button_id(),
    {
        self.gpio.free()
    }

    /// Steal the push-button from whatever is currently using it.
    ///
    /// This will **not** initialize the line.  The caller must guarantee,
    /// by program structure and not by any check this function performs,
    /// that no other live owner of the line exists, and must set the line
    /// up itself.
    pub fn steal() -> (r: Pb2)
        ensures
            r.button_id() == PinId::A1,
    {
        Pb2 { gpio: Input::steal(PinId::A1) }
    }
}

impl Pb1 {
    /// Create a new push-button 1, claiming its line as a pulled-up input.
    pub fn new(a0: Pin, cs: &CriticalSection, bank: &mut Gpio) -> (r: Pb1)
        requires
            a0.id() == PinId::A0,
        ensures
            r.button_id() == PinId::A0,
            *final(bank) == old(bank).with_slot(
                PinId::A0,
                input_slot(old(bank).slot(PinId::A0), button_pull()),
            ),
    {
        Pb1 { gpio: Input::new(a0, Pull::Up, cs, bank) }
    }

    /// Free the identity token from the push-button struct.  Performs no
    /// register writes.
    pub fn free(self) -> (r: Pin)
        ensures
            r.id() == self.button_id(),
    {
        self.gpio.free()
    }

    /// Steal the push-button from whatever is currently using it.
    ///
    /// This will **not** initialize the line.  The caller must guarantee,
    /// by program structure and not by any check this function performs,
    /// that no other live owner of the line exists, and must set the line
    /// up itself.
    pub fn steal() -> (r: Pb1)
        ensures
            r.button_id() == PinId::A0,
    {
        Pb1 { gpio: Input::steal(PinId::A0) }
    }
}

} // verus!
