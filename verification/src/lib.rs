//! A deterministic state machine for an automated teller machine session:
//! a card swipe, a PIN checked by fingerprint, then one bounded cash withdrawal.

pub mod amount;
pub mod atm;
pub mod fingerprint;
pub mod keypad;
pub mod laws;
pub mod state_machine;
