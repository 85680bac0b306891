//! The pieces that make up a character of the game.
use vstd::prelude::*;

verus! {

/// A character's name.
pub struct Name(pub String);

/// A character's balance, in satoshis.
pub struct Balance(pub u32);

/// A character's health points.
pub struct Health(pub u32);

/// The place a character stands on.
pub struct Location(pub u32);

/// Marks the character that the player controls; there is only one.
pub struct Player;

/// Marks a character that no one controls.
pub struct Npc;

/// Marks a hostile character.
pub struct Monster;

/// The pieces of a character that the player is about to control.
pub struct NewPlayer {
    pub player: Player,
    pub name: Name,
    pub balance: Balance,
    pub health: Health,
    pub location: Location,
}

/// Balance a new player starts with.
pub const STARTING_BALANCE: u32 = 0;

/// Health a new player starts with.
pub const STARTING_HEALTH: u32 = 10;

/// Place a new player starts on.
pub const STARTING_LOCATION: u32 = 0;

/// A new player with the given name, no balance, full health, at the start.
pub fn new_player(name: String) -> (p: NewPlayer)
    ensures
        p.name.0@ == name@,
        p.balance.0 == STARTING_BALANCE,
        p.health.0 == STARTING_HEALTH,
        p.location.0 == STARTING_LOCATION,
{
    NewPlayer {
        player: Player,
        name: Name(name),
        balance: Balance(STARTING_BALANCE),
        health: Health(STARTING_HEALTH),
        location: Location(STARTING_LOCATION),
    }
}

} // verus!
