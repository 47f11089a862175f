//! Claim registry and resource lifecycle.

use m401_bsp::gpio::{CriticalSection, Gpio, Level, OutputArgs, OutputType, Pin, PinId, PinMode, Pull, Speed};
use m401_bsp::output::Output;

#[test]
fn second_claim_fails() {
    let mut bank = Gpio::new();
    let cs = CriticalSection::new();
    let first = bank.claim(PinId::B3, &cs);
    assert!(first.is_some());
    assert_eq!(first.unwrap().id(), PinId::B3);
    // Claiming the same identity again must fail deterministically.
    let second = bank.claim(PinId::B3, &cs);
    assert!(second.is_none());
    // An unrelated line is not affected.
    let other = bank.claim(PinId::B4, &cs);
    assert!(other.is_some());
}

#[test]
fn claim_every_line_once() {
    let mut bank = Gpio::new();
    let cs = CriticalSection::new();
    let ids = [
        PinId::A0,
        PinId::A1,
        PinId::A4,
        PinId::A8,
        PinId::B0,
        PinId::B3,
        PinId::B4,
        PinId::B5,
    ];
    for id in ids {
        let t = bank.claim(id, &cs);
        assert_eq!(t.unwrap().id(), id);
    }
    for id in ids {
        assert!(bank.claim(id, &cs).is_none());
    }
}

#[test]
fn release_enables_reclaim() {
    let mut bank = Gpio::new();
    let cs = CriticalSection::new();
    let pin = bank.claim(PinId::A1, &cs).unwrap();
    assert!(bank.claim(PinId::A1, &cs).is_none());
    bank.release(pin, &cs);
    let again = bank.claim(PinId::A1, &cs);
    assert_eq!(again.unwrap().id(), PinId::A1);
}

#[test]
fn free_then_renew_overwrites_stale_state() {
    let mut bank = Gpio::new();
    let cs = CriticalSection::new();
    let pin = bank.claim(PinId::B5, &cs).unwrap();
    let first_args = OutputArgs {
        speed: Speed::Low,
        level: Level::High,
        ot: OutputType::OpenDrain,
        pull: Pull::Down,
    };
    let out = Output::new(pin, &first_args, &cs, &mut bank);
    assert_eq!(bank.slot_ref(PinId::B5).level, Level::High);
    assert_eq!(bank.slot_ref(PinId::B5).ot, OutputType::OpenDrain);
    // Freeing performs no register writes: the stale configuration stays.
    let pin = out.free();
    assert_eq!(pin.id(), PinId::B5);
    assert_eq!(bank.slot_ref(PinId::B5).level, Level::High);
    // Re-constructing over the same identity fully overwrites level,
    // topology, pull, and speed.
    let second_args = OutputArgs {
        speed: Speed::Fast,
        level: Level::Low,
        ot: OutputType::PushPull,
        pull: Pull::Floating,
    };
    let _out = Output::new(pin, &second_args, &cs, &mut bank);
    let slot = bank.slot_ref(PinId::B5);
    assert_eq!(slot.level, Level::Low);
    assert_eq!(slot.ot, OutputType::PushPull);
    assert_eq!(slot.pull, Pull::Floating);
    assert_eq!(slot.speed, Speed::Fast);
    assert_eq!(slot.mode, PinMode::Output);
    assert!(slot.claimed);
}

#[test]
fn steal_bypasses_registry_and_configuration() {
    let mut bank = Gpio::new();
    // No claim, no critical section, no configuration: the stolen handle
    // still drives the line.
    let mut out = Output::steal(PinId::B0);
    assert_eq!(bank.slot_ref(PinId::B0).mode, PinMode::Analog);
    out.set_high(&mut bank);
    assert_eq!(bank.read_level(PinId::B0), Level::High);
    // The registry never saw a claim, so the safe path is still open.
    let cs = CriticalSection::new();
    assert!(bank.claim(PinId::B0, &cs).is_some());
}

#[test]
fn pin_steal_carries_identity() {
    let pin = Pin::steal(PinId::A8);
    assert_eq!(pin.id(), PinId::A8);
}
