//! The RF front-end switch.

use vstd::prelude::*;

use crate::gpio::lemma_level_with_level;
use crate::gpio::output_slot;
use crate::gpio::CriticalSection;
use crate::gpio::Gpio;
use crate::gpio::Level;
use crate::gpio::OutputArgs;
use crate::gpio::OutputType;
use crate::gpio::Pin;
use crate::gpio::PinId;
use crate::gpio::Pull;
use crate::gpio::Speed;
use crate::output::Output;

verus! {

/// The three modes of the RF front-end switch.
#[derive(Clone, Copy, Debug, PartialEq, Eq, Structural)]
pub enum RfMode {
    /// Receive.
    Rx,
    /// Low power transmit.
    TxLp,
    /// High power transmit.
    TxHp,
}

/// The level a mode drives on control line 1.
pub open spec fn ctrl1_level(m: RfMode) -> Level {
    match m {
        RfMode::Rx => Level::Low,
        RfMode::TxLp => Level::Low,
        RfMode::TxHp => Level::High,
    }
}

/// The level a mode drives on control line 3.
pub open spec fn ctrl3_level(m: RfMode) -> Level {
    match m {
        RfMode::Rx => Level::High,
        RfMode::TxLp => Level::Low,
        RfMode::TxHp => Level::Low,
    }
}

/// The arena after both control lines have been driven to a mode's level
/// pair.
pub open spec fn apply_mode(bank: Gpio, id1: PinId, id3: PinId, m: RfMode) -> Gpio {
    bank.with_level(id1, ctrl1_level(m)).with_level(id3, ctrl3_level(m))
}

/// The descriptor both control lines are constructed with: fast push-pull
/// outputs with no pull resistor, starting at the low-power-transmit level
/// pair so the switch is in a defined mode as soon as construction
/// returns.
pub open spec fn rf_descriptor() -> OutputArgs {
    OutputArgs { speed: Speed::Fast, level: Level::Low, ot: OutputType::PushPull, pull: Pull::Floating }
}

/// The descriptor both control lines are constructed with.
pub fn rf_args() -> (r: OutputArgs)
    ensures
        r == rf_descriptor(),
{
    OutputArgs { speed: Speed::Fast, level: Level::Low, ot: OutputType::PushPull, pull: Pull::Floating }
}

/// The level pair a mode drives, as (control line 1, control line 3).
pub fn mode_levels(m: RfMode) -> (r: (Level, Level))
    ensures
        r.0 == ctrl1_level(m),
        r.1 == ctrl3_level(m),
{
    match m {
        RfMode::Rx => (Level::Low, Level::High),
        RfMode::TxLp => (Level::Low, Level::Low),
        RfMode::TxHp => (Level::High, Level::Low),
    }
}

/// RF switch: owner of the two independent control lines, exposing only
/// the three named modes.
///
/// Every mode transition drives a fixed pair of logic levels on the two
/// owned lines; through this interface the two levels are never set
/// independently of each other.
#[derive(Debug)]
pub struct RfSwitch {
    fe_ctrl1: Output,
    fe_ctrl3: Output,
}

impl RfSwitch {
    /// Both constructors bake the control lines' identities in; no public
    /// operation can change them.
    #[verifier::type_invariant]
    spec fn fixed_lines(self) -> bool {
        self.fe_ctrl1.id() == PinId::B0 && self.fe_ctrl3.id() == PinId::A8
    }

    /// The identity of control line 1.
    pub closed spec fn ctrl1_id(&self) -> PinId {
        self.fe_ctrl1.id()
    }

    /// The identity of control line 3.
    pub closed spec fn ctrl3_id(&self) -> PinId {
        self.fe_ctrl3.id()
    }

    /// The mode the two control lines currently spell, if they spell one.
    pub open spec fn mode_of(&self, bank: Gpio) -> Option<RfMode> {
        let l1 = bank.level_of(self.ctrl1_id());
        let l3 = bank.level_of(self.ctrl3_id());
        if l1 == Level::Low && l3 == Level::High {
            Some(RfMode::Rx)
        } else if l1 == Level::Low && l3 == Level::Low {
            Some(RfMode::TxLp)
        } else if l1 == Level::High && l3 == Level::Low {
            Some(RfMode::TxHp)
        } else {
            None
        }
    }

    /// Create a new `RfSwitch` struct from its two lines, claiming both as
    /// fast push-pull outputs.  Construction leaves the switch in the
    /// low-power-transmit mode.
    pub fn new(b0: Pin, a8: Pin, cs: &CriticalSection, bank: &mut Gpio) -> (r: RfSwitch)
        requires
            b0.id() == PinId::B0,
            a8.id() == PinId::A8,
        ensures
            r.ctrl1_id() == PinId::B0,
            r.ctrl3_id() == PinId::A8,
            *final(bank) == old(bank).with_slot(
                PinId::B0,
                output_slot(old(bank).slot(PinId::B0).claimed, rf_descriptor()),
            ).with_slot(
                PinId::A8,
                output_slot(old(bank).slot(PinId::A8).claimed, rf_descriptor()),
            ),
            r.mode_of(*final(bank)) == Some(RfMode::TxLp),
    {
        let args = rf_args();
        RfSwitch {
            fe_ctrl1: Output::new(b0, &args, cs, bank),
            fe_ctrl3: Output::new(a8, &args, cs, bank),
        }
    }

    /// Steal the RF switch from whatever is currently using it.
    ///
    /// This will **not** set up the control lines.  The caller must
    /// guarantee, by program structure and not by any check this function
    /// performs, that no other live owner of either line exists, and must
    /// set both lines up itself.
    pub fn steal() -> (r: RfSwitch)
        ensures
            r.ctrl1_id() == PinId::B0,
            r.ctrl3_id() == PinId::A8,
    {
        RfSwitch { fe_ctrl1: Output::steal(PinId::B0), fe_ctrl3: Output::steal(PinId::A8) }
    }

    /// Set the RF switch to receive: control line 1 low, control line 3
    /// high.  Total and infallible from any starting mode.
    pub fn set_rx(&mut self, bank: &mut Gpio)
        ensures
            *final(self) == *old(self),
            *final(bank) == apply_mode(
                *old(bank),
                old(self).ctrl1_id(),
                old(self).ctrl3_id(),
                RfMode::Rx,
            ),
            old(self).mode_of(*final(bank)) == Some(RfMode::Rx),
    {
        proof {
            use_type_invariant(&*self);
        }
        self.fe_ctrl1.set_level(bank, Level::Low);
        self.fe_ctrl3.set_level(bank, Level::High);
        proof {
            let g0 = *old(bank);
            let id1 = old(self).ctrl1_id();
            let id3 = old(self).ctrl3_id();
            lemma_level_with_level(g0, id1, Level::Low, id1);
            lemma_level_with_level(g0.with_level(id1, Level::Low), id3, Level::High, id1);
            lemma_level_with_level(g0.with_level(id1, Level::Low), id3, Level::High, id3);
        }
    }

    /// Set the RF switch to low power transmit: both control lines low.
    /// Total and infallible from any starting mode.
    pub fn set_tx_lp(&mut self, bank: &mut Gpio)
        ensures
            *final(self) == *old(self),
            *final(bank) == apply_mode(
                *old(bank),
                old(self).ctrl1_id(),
                old(self).ctrl3_id(),
                RfMode::TxLp,
            ),
            old(self).mode_of(*final(bank)) == Some(RfMode::TxLp),
    {
        proof {
            use_type_invariant(&*self);
        }
        self.fe_ctrl1.set_level(bank, Level::Low);
        self.fe_ctrl3.set_level(bank, Level::Low);
        proof {
            let g0 = *old(bank);
            let id1 = old(self).ctrl1_id();
            let id3 = old(self).ctrl3_id();
            lemma_level_with_level(g0, id1, Level::Low, id1);
            lemma_level_with_level(g0.with_level(id1, Level::Low), id3, Level::Low, id1);
            lemma_level_with_level(g0.with_level(id1, Level::Low), id3, Level::Low, id3);
        }
    }

    /// Set the RF switch to high power transmit: control line 1 high,
    /// control line 3 low.  Total and infallible from any starting mode.
    pub fn set_tx_hp(&mut self, bank: &mut Gpio)
        ensures
            *final(self) == *old(self),
            *final(bank) == apply_mode(
                *old(bank),
                old(self).ctrl1_id(),
                old(self).ctrl3_id(),
                RfMode::TxHp,
            ),
            old(self).mode_of(*final(bank)) == Some(RfMode::TxHp),
    {
        proof {
            use_type_invariant(&*self);
        }
        self.fe_ctrl1.set_level(bank, Level::High);
        self.fe_ctrl3.set_level(bank, Level::Low);
        proof {
            let g0 = *old(bank);
            let id1 = old(self).ctrl1_id();
            let id3 = old(self).ctrl3_id();
            lemma_level_with_level(g0, id1, Level::High, id1);
            lemma_level_with_level(g0.with_level(id1, Level::High), id3, Level::Low, id1);
            lemma_level_with_level(g0.with_level(id1, Level::High), id3, Level::Low, id3);
        }
    }
}

/// Mode transitions have no hysteresis: the level pair a transition leaves
/// on the two control lines depends only on the target mode, never on the
/// levels, and hence never on the mode, the switch started in.
pub proof fn lemma_transition_no_hysteresis(g1: Gpio, g2: Gpio, id1: PinId, id3: PinId, m: RfMode)
    requires
        id1 != id3,
    ensures
        apply_mode(g1, id1, id3, m).level_of(id1) == ctrl1_level(m),
        apply_mode(g1, id1, id3, m).level_of(id3) == ctrl3_level(m),
        apply_mode(g1, id1, id3, m).level_of(id1) == apply_mode(g2, id1, id3, m).level_of(id1),
        apply_mode(g1, id1, id3, m).level_of(id3) == apply_mode(g2, id1, id3, m).level_of(id3),
{
    lemma_level_with_level(g1, id1, ctrl1_level(m), id1);
    lemma_level_with_level(g1.with_level(id1, ctrl1_level(m)), id3, ctrl3_level(m), id1);
    lemma_level_with_level(g1.with_level(id1, ctrl1_level(m)), id3, ctrl3_level(m), id3);
    lemma_level_with_level(g2, id1, ctrl1_level(m), id1);
    lemma_level_with_level(g2.with_level(id1, ctrl1_level(m)), id3, ctrl3_level(m), id1);
    lemma_level_with_level(g2.with_level(id1, ctrl1_level(m)), id3, ctrl3_level(m), id3);
}

} // verus!
