//! Board support for a small radio module: exclusive, singleton-guarded
//! ownership of the board's digital I/O lines (LEDs, push-buttons, and the
//! RF front-end switch).
//!
//! The core of the crate is the ownership and lifecycle discipline for a
//! GPIO line: a line moves between "unclaimed", "actively owned and
//! configured", and "released back to a bare identity token".  The raw
//! register driver beneath these types is an external collaborator; the
//! [`gpio::Gpio`] arena models its observable state (per-pin electrical
//! configuration, logic level, and claim registry) so that every operation
//! of the crate carries a proved contract over that state.

pub mod gpio;
pub mod input;
pub mod led;
pub mod output;
pub mod pb;
pub mod rf;

pub use rf::RfSwitch;
