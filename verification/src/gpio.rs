//! The pin arena: a model of the GPIO lines this board uses.
//!
//! The low-level register driver is an external collaborator that is assumed
//! to provide safe, race-free configuration primitives.  [`Gpio`] holds what
//! that driver makes observable for each supported line: whether the line is
//! claimed by a live owner, its electrical configuration, and its logic
//! level.  Every higher-level resource in this crate states its contract
//! over this arena.

use vstd::prelude::*;

verus! {

/// Identity of one physical I/O line on the board.
///
/// At most one live owned resource may exist per identity at any time; the
/// safe construction path enforces this through [`Gpio::claim`] together
/// with the non-duplicable [`Pin`] token.
#[derive(Clone, Copy, Debug, PartialEq, Eq, Structural)]
pub enum PinId {
    /// Push-button 1.
    A0,
    /// Push-button 2.
    A1,
    /// Push-button 3.
    A4,
    /// RF switch control line 3.
    A8,
    /// RF switch control line 1.
    B0,
    /// Red LED, marked LED3 on the PCB.
    B3,
    /// Green LED, marked LED2 on the PCB.
    B4,
    /// Blue LED, marked LED1 on the PCB.
    B5,
}

/// Binary logic level of a digital I/O line.
#[derive(Clone, Copy, Debug, PartialEq, Eq, Structural)]
pub enum Level {
    Low,
    High,
}

/// Output slew-rate class.
#[derive(Clone, Copy, Debug, PartialEq, Eq, Structural)]
pub enum Speed {
    Low,
    Medium,
    High,
    Fast,
}

/// Output driving topology.
#[derive(Clone, Copy, Debug, PartialEq, Eq, Structural)]
pub enum OutputType {
    PushPull,
    OpenDrain,
}

/// Pull-resistor selection for a line.
#[derive(Clone, Copy, Debug, PartialEq, Eq, Structural)]
pub enum Pull {
    /// No pull resistor: the line floats when undriven.
    Floating,
    /// Weak pull toward the high level.
    Up,
    /// Weak pull toward the low level.
    Down,
}

/// Direction a line is configured for.
#[derive(Clone, Copy, Debug, PartialEq, Eq, Structural)]
pub enum PinMode {
    /// Reset state: not configured as a digital input or output.
    Analog,
    /// Configured as a digital output.
    Output,
    /// Configured as a digital input.
    Input,
}

/// The complement of a logic level.
pub open spec fn flip(l: Level) -> Level {
    match l {
        Level::Low => Level::High,
        Level::High => Level::Low,
    }
}

/// Exchanges a logic level for its complement.
pub fn flip_level(l: Level) -> (r: Level)
    ensures
        r == flip(l),
{
    match l {
        Level::Low => Level::High,
        Level::High => Level::Low,
    }
}

/// An immutable, fully-specified electrical configuration for one class of
/// output use (LED driving, RF switch driving).
#[derive(Clone, Copy, Debug, PartialEq, Eq, Structural)]
pub struct OutputArgs {
    /// Slew-rate class of the output driver.
    pub speed: Speed,
    /// Logic level the line is driven to as soon as it becomes an output.
    pub level: Level,
    /// Driving topology.
    pub ot: OutputType,
    /// Pull resistor applied alongside the driver.
    pub pull: Pull,
}

/// The observable state of one line in the arena.
#[derive(Clone, Copy, Debug, PartialEq, Eq, Structural)]
pub struct Slot {
    /// Whether a live owner (or an outstanding [`Pin`] token) exists for
    /// the line, as tracked by the safe claiming path.
    pub claimed: bool,
    /// Direction the line is configured for.
    pub mode: PinMode,
    /// Slew-rate class, meaningful when the line is an output.
    pub speed: Speed,
    /// Driving topology, meaningful when the line is an output.
    pub ot: OutputType,
    /// Pull resistor applied to the line.
    pub pull: Pull,
    /// Logic level currently present on the line.
    pub level: Level,
}

/// Proof that the caller currently holds exclusive, interrupt-free access
/// to shared configuration state.
///
/// Claiming or configuring a line requires one of these.  The token does
/// not check anything itself: the caller asserts, by constructing it, that
/// no concurrent claim can be in flight (interrupts masked, or an
/// equivalent mutual-exclusion guarantee) for as long as the token is in
/// use.
#[derive(Debug)]
pub struct CriticalSection {
    _private: (),
}

impl CriticalSection {
    /// Asserts that the calling code has exclusive, interrupt-free access.
    ///
    /// Constructing the token performs no check; the guarantee is the
    /// caller's responsibility.
    pub fn new() -> CriticalSection {
        CriticalSection { _private: () }
    }
}

/// A non-duplicable identity token for one physical line.
///
/// Possession of a `Pin` is the right to configure that line.  The safe way
/// to obtain one is [`Gpio::claim`]; owned resources return it from their
/// `free` operations so the line can be reconfigured.
#[derive(Debug)]
pub struct Pin {
    id: PinId,
}

impl Pin {
    /// The identity this token stands for.
    pub closed spec fn spec_id(&self) -> PinId {
        self.id
    }

    /// The identity this token stands for.
    #[verifier::when_used_as_spec(spec_id)]
    pub fn id(&self) -> (r: PinId)
        ensures
            r == self.spec_id(),
    {
        self.id
    }

    /// Escape hatch: manufactures an identity token without consulting the
    /// claim registry.
    ///
    /// The caller must guarantee, by program structure and not by any check
    /// this function performs, that no other live owner of the same
    /// identity exists.
    pub fn steal(id: PinId) -> (r: Pin)
        ensures
            r.id() == id,
    {
        Pin { id }
    }
}

/// The state of a freshly reset line: unclaimed and unconfigured.
pub open spec fn reset_slot() -> Slot {
    Slot {
        claimed: false,
        mode: PinMode::Analog,
        speed: Speed::Low,
        ot: OutputType::PushPull,
        pull: Pull::Floating,
        level: Level::Low,
    }
}

/// The slot an output configuration leaves behind: every electrical field
/// comes from the descriptor alone, so no stale state survives.
pub open spec fn output_slot(claimed: bool, args: OutputArgs) -> Slot {
    Slot {
        claimed,
        mode: PinMode::Output,
        speed: args.speed,
        ot: args.ot,
        pull: args.pull,
        level: args.level,
    }
}

/// The slot an input configuration leaves behind: direction and pull come
/// from the caller; the line's level stays whatever the outside world
/// drives it to.
pub open spec fn input_slot(prev: Slot, pull: Pull) -> Slot {
    Slot { mode: PinMode::Input, pull, ..prev }
}

/// The arena of pin slots, indexed by [`PinId`]: the claim registry plus
/// the observable electrical state of every supported line.
#[derive(Clone, Copy, Debug, PartialEq, Eq, Structural)]
pub struct Gpio {
    pub a0: Slot,
    pub a1: Slot,
    pub a4: Slot,
    pub a8: Slot,
    pub b0: Slot,
    pub b3: Slot,
    pub b4: Slot,
    pub b5: Slot,
}

impl Gpio {
    /// The slot of one line.
    pub open spec fn slot(self, id: PinId) -> Slot {
        match id {
            PinId::A0 => self.a0,
            PinId::A1 => self.a1,
            PinId::A4 => self.a4,
            PinId::A8 => self.a8,
            PinId::B0 => self.b0,
            PinId::B3 => self.b3,
            PinId::B4 => self.b4,
            PinId::B5 => self.b5,
        }
    }

    /// The arena with one slot replaced and every other line untouched.
    pub open spec fn with_slot(self, id: PinId, s: Slot) -> Gpio {
        match id {
            PinId::A0 => Gpio { a0: s, ..self },
            PinId::A1 => Gpio { a1: s, ..self },
            PinId::A4 => Gpio { a4: s, ..self },
            PinId::A8 => Gpio { a8: s, ..self },
            PinId::B0 => Gpio { b0: s, ..self },
            PinId::B3 => Gpio { b3: s, ..self },
            PinId::B4 => Gpio { b4: s, ..self },
            PinId::B5 => Gpio { b5: s, ..self },
        }
    }

    /// Whether a live owner exists for the line.
    pub open spec fn is_claimed(self, id: PinId) -> bool {
        self.slot(id).claimed
    }

    /// The logic level currently on the line.
    pub open spec fn level_of(self, id: PinId) -> Level {
        self.slot(id).level
    }

    /// The arena with only the line's level changed.
    pub open spec fn with_level(self, id: PinId, l: Level) -> Gpio {
        self.with_slot(id, (Slot { level: l, ..self.slot(id) }))
    }

    /// Whether a safe claim of the line would succeed.
    pub open spec fn claim_succeeds(self, id: PinId) -> bool {
        !self.is_claimed(id)
    }

    /// The arena after a successful claim of the line.
    pub open spec fn after_claim(self, id: PinId) -> Gpio {
        self.with_slot(id, (Slot { claimed: true, ..self.slot(id) }))
    }

    /// The arena after the line's identity token is surrendered.
    pub open spec fn after_release(self, id: PinId) -> Gpio {
        self.with_slot(id, (Slot { claimed: false, ..self.slot(id) }))
    }

    /// The whole arena in its reset state.
    pub open spec fn reset() -> Gpio {
        Gpio {
            a0: reset_slot(),
            a1: reset_slot(),
            a4: reset_slot(),
            a8: reset_slot(),
            b0: reset_slot(),
            b3: reset_slot(),
            b4: reset_slot(),
            b5: reset_slot(),
        }
    }

    /// An arena with every line unclaimed and unconfigured.
    pub fn new() -> (r: Gpio)
        ensures
            r == Gpio::reset(),
    {
        let s = Slot {
            claimed: false,
            mode: PinMode::Analog,
            speed: Speed::Low,
            ot: OutputType::PushPull,
            pull: Pull::Floating,
            level: Level::Low,
        };
        Gpio { a0: s, a1: s, a4: s, a8: s, b0: s, b3: s, b4: s, b5: s }
    }

    /// Borrows the slot of one line.
    pub fn slot_ref(&self, id: PinId) -> (r: &Slot)
        ensures
            *r == self.slot(id),
        no_unwind
    {
        match id {
            PinId::A0 => &self.a0,
            PinId::A1 => &self.a1,
            PinId::A4 => &self.a4,
            PinId::A8 => &self.a8,
            PinId::B0 => &self.b0,
            PinId::B3 => &self.b3,
            PinId::B4 => &self.b4,
            PinId::B5 => &self.b5,
        }
    }

    /// Replaces the slot of one line.
    fn set_slot(&mut self, id: PinId, s: Slot)
        ensures
            *final(self) == old(self).with_slot(id, s),
        no_unwind
    {
        match id {
            PinId::A0 => self.a0 = s,
            PinId::A1 => self.a1 = s,
            PinId::A4 => self.a4 = s,
            PinId::A8 => self.a8 = s,
            PinId::B0 => self.b0 = s,
            PinId::B3 => self.b3 = s,
            PinId::B4 => self.b4 = s,
            PinId::B5 => self.b5 = s,
        }
    }

    /// Claims exclusive ownership of a line through the safe path.
    ///
    /// Succeeds, returning the line's identity token, exactly when no live
    /// owner exists; a second claim of the same line deterministically
    /// fails until the token is surrendered with [`Gpio::release`].  The
    /// critical-section token proves that no concurrent claim can race
    /// this one.
    pub fn claim(&mut self, id: PinId, cs: &CriticalSection) -> (r: Option<Pin>)
        ensures
            old(self).claim_succeeds(id) ==> {
                &&& *final(self) == old(self).after_claim(id)
                &&& r matches Some(p) && p.id() == id
            },
            !old(self).claim_succeeds(id) ==> {
                &&& *final(self) == *old(self)
                &&& r is None
            },
    {
        let s = *self.slot_ref(id);
        if s.claimed {
            None
        } else {
            self.set_slot(id, Slot { claimed: true, ..s });
            Some(Pin { id })
        }
    }

    /// Surrenders a line's identity token, making the line claimable
    /// again.  The line's electrical state is left as-is.
    pub fn release(&mut self, pin: Pin, cs: &CriticalSection)
        ensures
            *final(self) == old(self).after_release(pin.id()),
    {
        let id = pin.id;
        let s = *self.slot_ref(id);
        self.set_slot(id, Slot { claimed: false, ..s });
    }

    /// Configures a line as a digital output, applying the descriptor's
    /// drive strength, topology, pull, and initial level.  Every
    /// electrical field of the resulting slot comes from the descriptor;
    /// nothing of the prior configuration survives.
    pub fn configure_output(&mut self, pin: &Pin, args: &OutputArgs, cs: &CriticalSection)
        ensures
            *final(self) == old(self).with_slot(
                pin.id(),
                output_slot(old(self).slot(pin.id()).claimed, *args),
            ),
    {
        let id = pin.id;
        let s = *self.slot_ref(id);
        self.set_slot(
            id,
            Slot {
                claimed: s.claimed,
                mode: PinMode::Output,
                speed: args.speed,
                ot: args.ot,
                pull: args.pull,
                level: args.level,
            },
        );
    }

    /// Configures a line as a digital input with the given pull resistor.
    pub fn configure_input(&mut self, pin: &Pin, pull: Pull, cs: &CriticalSection)
        ensures
            *final(self) == old(self).with_slot(
                pin.id(),
                input_slot(old(self).slot(pin.id()), pull),
            ),
    {
        let id = pin.id;
        let s = *self.slot_ref(id);
        self.set_slot(id, Slot { mode: PinMode::Input, pull, ..s });
    }

    /// Drives an owned output line to a logic level.  Infallible: a
    /// digital output write has no hardware failure mode.
    pub fn write_level(&mut self, pin: &Pin, l: Level)
        ensures
            *final(self) == old(self).with_level(pin.id(), l),
        no_unwind
    {
        let id = pin.id;
        let s = *self.slot_ref(id);
        self.set_slot(id, Slot { level: l, ..s });
    }

    /// Reads the logic level currently on a line.  Infallible.
    pub fn read_level(&self, id: PinId) -> (r: Level)
        ensures
            r == self.level_of(id),
    {
        self.slot_ref(id).level
    }

    /// Models the outside world driving a line, such as a pressed button
    /// pulling its input low.  Owned code never needs this; it exists so
    /// the externally-determined level of an input line can be set.
    pub fn drive_line(&mut self, id: PinId, l: Level)
        ensures
            *final(self) == old(self).with_level(id, l),
    {
        let s = *self.slot_ref(id);
        self.set_slot(id, Slot { level: l, ..s });
    }
}

/// Replacing one slot touches no other line, and reading the replaced slot
/// back gives exactly the replacement.
pub proof fn lemma_slot_with_slot(g: Gpio, id: PinId, s: Slot, p: PinId)
    ensures
        g.with_slot(id, s).slot(p) == (if p == id {
            s
        } else {
            g.slot(p)
        }),
{
}

/// Driving one line's level touches no other line and changes nothing of
/// the line but its level.
pub proof fn lemma_level_with_level(g: Gpio, id: PinId, l: Level, p: PinId)
    ensures
        g.with_level(id, l).level_of(p) == (if p == id {
            l
        } else {
            g.level_of(p)
        }),
        p != id ==> g.with_level(id, l).slot(p) == g.slot(p),
        g.with_level(id, l).slot(id) == (Slot { level: l, ..g.slot(id) }),
{
    lemma_slot_with_slot(g, id, (Slot { level: l, ..g.slot(id) }), p);
    lemma_slot_with_slot(g, id, (Slot { level: l, ..g.slot(id) }), id);
}

/// A level written to a line is the level read back from it.
pub proof fn lemma_write_reads_back(g: Gpio, id: PinId, l: Level)
    ensures
        g.with_level(id, l).level_of(id) == l,
{
    lemma_level_with_level(g, id, l, id);
}

/// Claiming a line and surrendering its token restores the arena exactly:
/// re-claiming starts from no stale state.
pub proof fn lemma_claim_release_round_trip(g: Gpio, id: PinId)
    requires
        g.claim_succeeds(id),
    ensures
        g.after_claim(id).after_release(id) == g,
{
    lemma_slot_with_slot(g, id, (Slot { claimed: true, ..g.slot(id) }), id);
}

/// Ownership is exclusive: once a safe claim of a line has succeeded, a
/// second safe claim of the same line deterministically fails.
pub proof fn lemma_claim_exclusive(g: Gpio, id: PinId)
    requires
        g.claim_succeeds(id),
    ensures
        !g.after_claim(id).claim_succeeds(id),
{
    lemma_slot_with_slot(g, id, (Slot { claimed: true, ..g.slot(id) }), id);
}

/// Surrendering a line's token makes the same line claimable again, with
/// its electrical state carried over unchanged.
pub proof fn lemma_release_enables_reclaim(g: Gpio, id: PinId)
    ensures
        g.after_release(id).claim_succeeds(id),
        g.after_release(id).slot(id).mode == g.slot(id).mode,
        g.after_release(id).slot(id).level == g.slot(id).level,
        g.after_release(id).slot(id).pull == g.slot(id).pull,
        g.after_release(id).slot(id).ot == g.slot(id).ot,
        g.after_release(id).slot(id).speed == g.slot(id).speed,
{
    lemma_slot_with_slot(g, id, (Slot { claimed: false, ..g.slot(id) }), id);
}

/// Reconfiguring a line as an output fully overwrites its prior electrical
/// state: two arenas that differ arbitrarily at a line end up with the same
/// slot there after applying the same descriptor, apart from the claim bit
/// each carried.
pub proof fn lemma_reconfigure_overwrites(g1: Gpio, g2: Gpio, id: PinId, args: OutputArgs)
    requires
        g1.slot(id).claimed == g2.slot(id).claimed,
    ensures
        g1.with_slot(id, output_slot(g1.slot(id).claimed, args)).slot(id)
            == g2.with_slot(id, output_slot(g2.slot(id).claimed, args)).slot(id),
{
    lemma_slot_with_slot(g1, id, output_slot(g1.slot(id).claimed, args), id);
    lemma_slot_with_slot(g2, id, output_slot(g2.slot(id).claimed, args), id);
}

/// Toggling a line twice restores the level it started with.
pub proof fn lemma_double_toggle_restores(g: Gpio, id: PinId)
    ensures
        ({
            let once = g.with_level(id, flip(g.level_of(id)));
            let twice = once.with_level(id, flip(once.level_of(id)));
            twice.level_of(id) == g.level_of(id)
        }),
{
    let once = g.with_level(id, flip(g.level_of(id)));
    lemma_slot_with_slot(g, id, (Slot { level: flip(g.level_of(id)), ..g.slot(id) }), id);
    lemma_slot_with_slot(once, id, (Slot { level: flip(once.level_of(id)), ..once.slot(id) }), id);
}

} // verus!
