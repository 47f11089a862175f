//! LEDs.

use vstd::prelude::*;

use crate::gpio::flip;
use crate::gpio::output_slot;
use crate::gpio::CriticalSection;
use crate::gpio::Gpio;
use crate::gpio::Level;
use crate::gpio::OutputArgs;
use crate::gpio::OutputType;
use crate::gpio::Pin;
use crate::gpio::PinId;
use crate::gpio::Pull;
use crate::gpio::Speed;
use crate::output::Output;

verus! {

/// The descriptor every LED is constructed with: fast push-pull output, no
/// pull resistor, starting low (off).
pub open spec fn led_descriptor() -> OutputArgs {
    OutputArgs { speed: Speed::Fast, level: Level::Low, ot: OutputType::PushPull, pull: Pull::Floating }
}

/// The descriptor every LED is constructed with.
pub fn led_args() -> (r: OutputArgs)
    ensures
        r == led_descriptor(),
{
    OutputArgs { speed: Speed::Fast, level: Level::Low, ot: OutputType::PushPull, pull: Pull::Floating }
}

/// Capability of an LED: any type that can hand out a mutable borrow of an
/// output-capable resource can be driven on, off, or toggled, without the
/// caller being generic over which physical line backs it.
pub trait Led {
    /// The identity of the line driving the LED.
    spec fn led_id(&self) -> PinId;

    /// Output resource driving the LED.
    fn output(&mut self) -> (r: &mut Output)
        ensures
            (*r).id() == old(self).led_id(),
            final(self).led_id() == (*final(r)).id(),
    ;

    /// Set the LED on.
    fn set_on(&mut self, bank: &mut Gpio)
        ensures
            final(self).led_id() == old(self).led_id(),
            *final(bank) == old(bank).with_level(old(self).led_id(), Level::High),
    {
        let o = self.output();
        o.set_high(bank);
    }

    /// Set the LED off.
    fn set_off(&mut self, bank: &mut Gpio)
        ensures
            final(self).led_id() == old(self).led_id(),
            *final(bank) == old(bank).with_level(old(self).led_id(), Level::Low),
    {
        let o = self.output();
        o.set_low(bank);
    }

    /// Toggle the LED state.
    fn toggle(&mut self, bank: &mut Gpio)
        ensures
            final(self).led_id() == old(self).led_id(),
            *final(bank) == old(bank).with_level(
                old(self).led_id(),
                flip(old(bank).level_of(old(self).led_id())),
            ),
    {
        let o = self.output();
        o.toggle(bank);
    }
}

/// Red LED.
///
/// Marked as LED3 on the PCB.
#[derive(Debug)]
pub struct Red {
    gpio: Output,
}

impl Red {
    /// Create a new red LED, claiming its line as a fast push-pull output
    /// starting low (off).
    pub fn new(b3: Pin, cs: &CriticalSection, bank: &mut Gpio) -> (r: Red)
        requires
            b3.id() == PinId::B3,
        ensures
            r.led_id() == PinId::B3,
            *final(bank) == old(bank).with_slot(
                PinId::B3,
                output_slot(old(bank).slot(PinId::B3).claimed, led_descriptor()),
            ),
    {
        Red { gpio: Output::new(b3, &led_args(), cs, bank) }
    }

    /// Free the identity token from the LED struct.  Performs no register
    /// writes.
    pub fn free(self) -> (r: Pin)
        ensures
            r.id() == self.led_id(),
    {
        self.gpio.free()
    }

    /// Steal the LED from whatever is currently using it.
    ///
    /// This will **not** initialize the line.  The caller must guarantee,
    /// by program structure and not by any check this function performs,
    /// that no other live owner of the line exists, and must set the line
    /// up itself.
    pub fn steal() -> (r: Red)
        ensures
            r.led_id() == PinId::B3,
    {
        Red { gpio: Output::steal(PinId::B3) }
    }
}

impl Led for Red {
    closed spec fn led_id(&self) -> PinId {
        self.gpio.id()
    }

    fn output(&mut self) -> (r: &mut Output) {
        &mut self.gpio
    }
}

/// Green LED.
///
/// Marked as LED2 on the PCB.
#[derive(Debug)]
pub struct Green {
    gpio: Output,
}

impl Green {
    /// Create a new green LED, claiming its line as a fast push-pull
    /// output starting low (off).
    pub fn new(b4: Pin, cs: &CriticalSection, bank: &mut Gpio) -> (r: Green)
        requires
            b4.id() == PinId::B4,
        ensures
            r.led_id() == PinId::B4,
            *final(bank) == old(bank).with_slot(
                PinId::B4,
                output_slot(old(bank).slot(PinId::B4).claimed, led_descriptor()),
            ),
    {
        Green { gpio: Output::new(b4, &led_args(), cs, bank) }
    }

    /// Free the identity token from the LED struct.  Performs no register
    /// writes.
    pub fn free(self) -> (r: Pin)
        ensures
            r.id() == self.led_id(),
    {
        self.gpio.free()
    }

    /// Steal the LED from whatever is currently using it.
    ///
    /// This will **not** initialize the line.  The caller must guarantee,
    /// by program structure and not by any check this function performs,
    /// that no other live owner of the line exists, and must set the line
    /// up itself.
    pub fn steal() -> (r: Green)
        ensures
            r.led_id() == PinId::B4,
    {
        Green { gpio: Output::steal(PinId::B4) }
    }
}

impl Led for Green {
    closed spec fn led_id(&self) -> PinId {
        self.gpio.id()
    }

    fn output(&mut self) -> (r: &mut Output) {
        &mut self.gpio
    }
}

/// Blue LED.
///
/// Marked as LED1 on the PCB.
#[derive(Debug)]
pub struct Blue {
    gpio: Output,
}

impl Blue {
    /// Create a new blue LED, claiming its line as a fast push-pull output
    /// starting low (off).
    pub fn new(b5: Pin, cs: &CriticalSection, bank: &mut Gpio) -> (r: Blue)
        requires
            b5.id() == PinId::B5,
        ensures
            r.led_id() == PinId::B5,
            *final(bank) == old(bank).with_slot(
                PinId::B5,
                output_slot(old(bank).slot(PinId::B5).claimed, led_descriptor()),
            ),
    {
        Blue { gpio: Output::new(b5, &led_args(), cs, bank) }
    }

    /// Free the identity token from the LED struct.  Performs no register
    /// writes.
    pub fn free(self) -> (r: Pin)
        ensures
            r.id() == self.led_id(),
    {
        self.gpio.free()
    }

    /// Steal the LED from whatever is currently using it.
    ///
    /// This will **not** initialize the line.  The caller must guarantee,
    /// by program structure and not by any check this function performs,
    /// that no other live owner of the line exists, and must set the line
    /// up itself.
    pub fn steal() -> (r: Blue)
        ensures
            r.led_id() == PinId::B5,
    {
        Blue { gpio: Output::steal(PinId::B5) }
    }
}

impl Led for Blue {
    closed spec fn led_id(&self) -> PinId {
        self.gpio.id()
    }

    fn output(&mut self) -> (r: &mut Output) {
        &mut self.gpio
    }
}

} // verus!
