//! RF switch construction and mode transitions.

use m401_bsp::gpio::{CriticalSection, Gpio, Level, OutputType, PinId, PinMode, Speed};
use m401_bsp::RfSwitch;

fn fresh_switch() -> (Gpio, RfSwitch) {
    let mut bank = Gpio::new();
    let cs = CriticalSection::new();
    let b0 = bank.claim(PinId::B0, &cs).unwrap();
    let a8 = bank.claim(PinId::A8, &cs).unwrap();
    let sw = RfSwitch::new(b0, a8, &cs, &mut bank);
    (bank, sw)
}

fn levels(bank: &Gpio) -> (Level, Level) {
    (bank.read_level(PinId::B0), bank.read_level(PinId::A8))
}

#[test]
fn construction_sets_low_power_transmit_pair() {
    let (bank, _sw) = fresh_switch();
    assert_eq!(levels(&bank), (Level::Low, Level::Low));
    let slot = bank.slot_ref(PinId::B0);
    assert_eq!(slot.mode, PinMode::Output);
    assert_eq!(slot.speed, Speed::Fast);
    assert_eq!(slot.ot, OutputType::PushPull);
    assert_eq!(bank.slot_ref(PinId::A8).mode, PinMode::Output);
}

#[test]
fn rx_pair_is_low_high() {
    let (mut bank, mut sw) = fresh_switch();
    sw.set_rx(&mut bank);
    assert_eq!(levels(&bank), (Level::Low, Level::High));
}

#[test]
fn tx_lp_pair_is_low_low() {
    let (mut bank, mut sw) = fresh_switch();
    sw.set_rx(&mut bank);
    sw.set_tx_lp(&mut bank);
    assert_eq!(levels(&bank), (Level::Low, Level::Low));
}

#[test]
fn tx_hp_pair_is_high_low() {
    let (mut bank, mut sw) = fresh_switch();
    sw.set_tx_hp(&mut bank);
    assert_eq!(levels(&bank), (Level::High, Level::Low));
}

#[test]
fn all_nine_transitions_ignore_start_mode() {
    // For every start mode and every transition, the end levels depend
    // only on the transition: no hysteresis.
    for start in 0..3 {
        for next in 0..3 {
            let (mut bank, mut sw) = fresh_switch();
            match start {
                0 => sw.set_rx(&mut bank),
                1 => sw.set_tx_lp(&mut bank),
                _ => sw.set_tx_hp(&mut bank),
            }
            let expected = match next {
                0 => {
                    sw.set_rx(&mut bank);
                    (Level::Low, Level::High)
                }
                1 => {
                    sw.set_tx_lp(&mut bank);
                    (Level::Low, Level::Low)
                }
                _ => {
                    sw.set_tx_hp(&mut bank);
                    (Level::High, Level::Low)
                }
            };
            assert_eq!(levels(&bank), expected);
        }
    }
}

#[test]
fn steal_owns_both_lines_without_setup() {
    let mut bank = Gpio::new();
    let mut sw = RfSwitch::steal();
    assert_eq!(bank.slot_ref(PinId::B0).mode, PinMode::Analog);
    assert_eq!(bank.slot_ref(PinId::A8).mode, PinMode::Analog);
    sw.set_rx(&mut bank);
    assert_eq!(levels(&bank), (Level::Low, Level::High));
    // The registry was bypassed: both identities are still claimable.
    let cs = CriticalSection::new();
    assert!(bank.claim(PinId::B0, &cs).is_some());
    assert!(bank.claim(PinId::A8, &cs).is_some());
}
