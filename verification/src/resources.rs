//! The values shared by the whole simulation: formation speed, timers and
//! the state of the game.

use bevy::time::Timer;
use vstd::prelude::*;
use vstd::std_specs::cmp::PartialEqSpecImpl;

verus! {

/// Speed of the formation, in world units per second.
pub struct InvaderSpeed(pub u32);

/// Paces the steps of the formation.
pub struct InvaderTimer(pub Timer);

/// Cooldown between two shots of the player.
pub struct PlayerShootTimer(pub Timer);

/// Paces the invaders' fire.
pub struct InvaderShootTimer(pub Timer);

/// The state of the game. Exactly one is active at a time, and it decides
/// which subsystems run in a tick.
#[derive(Clone, Copy, Debug)]
pub enum GameState {
    Playing,
    PlayerHit,
    RespawningInvaders,
    Pausing,
    GameOver,
    Restarting,
}

impl PartialEq for GameState {
    fn eq(&self, other: &Self) -> (b: bool) {
        match (self, other) {
            (GameState::Playing, GameState::Playing) => true,
            (GameState::PlayerHit, GameState::PlayerHit) => true,
            (GameState::RespawningInvaders, GameState::RespawningInvaders) => true,
            (GameState::Pausing, GameState::Pausing) => true,
            (GameState::GameOver, GameState::GameOver) => true,
            (GameState::Restarting, GameState::Restarting) => true,
            _ => false,
        }
    }
}

impl PartialEqSpecImpl for GameState {
    open spec fn obeys_eq_spec() -> bool {
        true
    }

    open spec fn eq_spec(&self, other: &Self) -> bool {
        *self == *other
    }
}

/// How long the player stays hit.
pub struct PlayerHitTimer(pub Timer);

/// Paces the flicker of a hit player.
pub struct PlayerHitAnimationTimer(pub Timer);

/// Delay between the respawn of the formation and the return to play.
pub struct RespawningInvadersTimer(pub Timer);

} // verus!
