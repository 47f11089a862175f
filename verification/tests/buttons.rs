//! Push-button polarity.

use m401_bsp::gpio::{CriticalSection, Gpio, Level, PinId, PinMode, Pull};
use m401_bsp::pb::{Pb1, Pb2, Pb3, PushButton};

#[test]
fn is_pushed_inverts_polarity_pb1() {
    let mut bank = Gpio::new();
    let cs = CriticalSection::new();
    let a0 = bank.claim(PinId::A0, &cs).unwrap();
    let pb = Pb1::new(a0, &cs, &mut bank);
    bank.drive_line(PinId::A0, Level::Low);
    assert!(pb.is_pushed(&bank));
    bank.drive_line(PinId::A0, Level::High);
    assert!(!pb.is_pushed(&bank));
}

#[test]
fn is_pushed_inverts_polarity_pb2() {
    let mut bank = Gpio::new();
    let cs = CriticalSection::new();
    let a1 = bank.claim(PinId::A1, &cs).unwrap();
    let pb = Pb2::new(a1, &cs, &mut bank);
    bank.drive_line(PinId::A1, Level::Low);
    assert!(pb.is_pushed(&bank));
    bank.drive_line(PinId::A1, Level::High);
    assert!(!pb.is_pushed(&bank));
}

#[test]
fn is_pushed_inverts_polarity_pb3() {
    let mut bank = Gpio::new();
    let cs = CriticalSection::new();
    let a4 = bank.claim(PinId::A4, &cs).unwrap();
    let pb = Pb3::new(a4, &cs, &mut bank);
    bank.drive_line(PinId::A4, Level::Low);
    assert!(pb.is_pushed(&bank));
    bank.drive_line(PinId::A4, Level::High);
    assert!(!pb.is_pushed(&bank));
}

#[test]
fn button_construction_configures_pulled_up_input() {
    let mut bank = Gpio::new();
    let cs = CriticalSection::new();
    let a4 = bank.claim(PinId::A4, &cs).unwrap();
    let pb = Pb3::new(a4, &cs, &mut bank);
    let slot = bank.slot_ref(PinId::A4);
    assert_eq!(slot.mode, PinMode::Input);
    assert_eq!(slot.pull, Pull::Up);
    // Freeing hands the identity back.
    let pin = pb.free();
    assert_eq!(pin.id(), PinId::A4);
}

#[test]
fn button_steal_reads_without_setup() {
    let mut bank = Gpio::new();
    let pb = Pb2::steal();
    bank.drive_line(PinId::A1, Level::Low);
    assert!(pb.is_pushed(&bank));
}
