//! How a combat message is addressed to its readers.
use vstd::prelude::*;

verus! {

/// Whose point of view a message is told from.
#[derive(Clone, Copy, Debug, PartialEq, Eq, Structural)]
pub enum Perspective {
    /// "You attack".
    FirstPerson,
    /// "X attacks you".
    SecondPerson,
    /// "X attacks Y".
    ThirdPerson,
}

pub struct CombatMessage {
    pub attacker_name: String,
    pub defender_name: String,
    pub action: String,
    pub damage: u16,
}

} // verus!
