//! The simulation context: every shared value and every live game object, in
//! one struct that is handed to each subsystem.

use crate::components::all_sound;
use crate::components::GameOverText;
use crate::components::GameRestartButton;
use crate::components::GameRestartText;
use crate::components::Invader;
use crate::components::InvaderBullet;
use crate::components::Player;
use crate::components::PlayerBullet;
use crate::components::PlayerLife;
use crate::components::PlayerScore;
use crate::components::ShieldPart;
use crate::enums::InvaderDirection;
use crate::resources::GameState;
use crate::resources::InvaderShootTimer;
use crate::resources::InvaderSpeed;
use crate::resources::InvaderTimer;
use crate::resources::PlayerHitAnimationTimer;
use crate::resources::PlayerHitTimer;
use crate::resources::PlayerShootTimer;
use crate::resources::RespawningInvadersTimer;
use crate::timer::fresh;
use crate::timer::new_timer;
use crate::timer::timer_ok;
use crate::timer::timer_state;
use vstd::prelude::*;

verus! {

/// Width of the playfield that the fixed bounds are derived from, in
/// sub-units.
pub const WINDOW_WIDTH: i64 = 640_000_000_000;

/// Height of the playfield that the fixed bounds are derived from, in
/// sub-units.
pub const WINDOW_HEIGHT: i64 = 480_000_000_000;

/// Speed of a fresh formation, in world units per second.
pub const INVADER_SPEED: u32 = 250;

/// Time between two shots of the player, in nanoseconds.
pub const PLAYER_SHOOT_COOLDOWN: u64 = 500_000_000;

/// Time between two steps of the formation, in nanoseconds.
pub const INVADER_STEP_PERIOD: u64 = 850_000_000;

/// Time between two rounds of invader fire, in nanoseconds.
pub const INVADER_SHOOT_PERIOD: u64 = 1_000_000_000;

/// Time for which a hit player is out of play, in nanoseconds.
pub const PLAYER_HIT_DURATION: u64 = 1_500_000_000;

/// Time between two changes of a hit player's texture, in nanoseconds.
pub const PLAYER_HIT_FLICKER_PERIOD: u64 = 100_000_000;

/// Time between the respawn of the formation and the return to play, in
/// nanoseconds.
pub const RESPAWN_DELAY: u64 = 1_000_000_000;

/// Size of the window, in sub-units.
#[derive(Clone, Copy, Debug, PartialEq, Eq)]
pub struct WindowSize {
    pub width: u64,
    pub height: u64,
}

/// The whole state of a game.
pub struct Game {
    /// Time since the game was created, in nanoseconds: the sum of the ticks
    /// so far, which stops at the largest value it can hold.
    pub elapsed_nanos: u64,
    pub game_state: GameState,
    pub direction: InvaderDirection,
    pub speed: InvaderSpeed,
    pub invader_timer: InvaderTimer,
    pub player_shoot_timer: PlayerShootTimer,
    pub invader_shoot_timer: InvaderShootTimer,
    pub player_hit_timer: PlayerHitTimer,
    pub player_hit_animation_timer: PlayerHitAnimationTimer,
    pub respawning_invaders_timer: RespawningInvadersTimer,
    pub players: Vec<Player>,
    pub shields: Vec<ShieldPart>,
    pub invaders: Vec<Invader>,
    pub player_bullets: Vec<PlayerBullet>,
    pub invader_bullets: Vec<InvaderBullet>,
    pub scores: Vec<PlayerScore>,
    pub lives: Vec<PlayerLife>,
    pub game_over_texts: Vec<GameOverText>,
    pub restart_buttons: Vec<GameRestartButton>,
    pub restart_texts: Vec<GameRestartText>,
}

impl Game {
    /// Every timer can be ticked.
    pub open spec fn timers_ok(&self) -> bool {
        &&& timer_ok(timer_state(self.invader_timer.0))
        &&& timer_ok(timer_state(self.player_shoot_timer.0))
        &&& timer_ok(timer_state(self.invader_shoot_timer.0))
        &&& timer_ok(timer_state(self.player_hit_timer.0))
        &&& timer_ok(timer_state(self.player_hit_animation_timer.0))
        &&& timer_ok(timer_state(self.respawning_invaders_timer.0))
    }

    /// Every shield segment is well formed.
    pub open spec fn shields_ok(&self) -> bool {
        all_sound(self.shields@)
    }

    /// The invariant of the simulation.
    pub open spec fn wf(&self) -> bool {
        &&& self.timers_ok()
        &&& self.shields_ok()
    }

    /// No game object is alive.
    pub open spec fn is_empty(&self) -> bool {
        &&& self.players@.len() == 0
        &&& self.shields@.len() == 0
        &&& self.invaders@.len() == 0
        &&& self.player_bullets@.len() == 0
        &&& self.invader_bullets@.len() == 0
        &&& self.scores@.len() == 0
        &&& self.lives@.len() == 0
        &&& self.game_over_texts@.len() == 0
        &&& self.restart_buttons@.len() == 0
        &&& self.restart_texts@.len() == 0
    }

    /// A game before its set-up: the state is `Playing`, the formation heads
    /// right at its starting speed, every timer is fresh and nothing is alive.
    pub fn new() -> (game: Game)
        ensures
            game.wf(),
            game.is_empty(),
            game.elapsed_nanos == 0,
            game.game_state == GameState::Playing,
            game.direction == InvaderDirection::Right,
            game.speed.0 == INVADER_SPEED,
            timer_state(game.invader_timer.0) == fresh(INVADER_STEP_PERIOD as nat, true),
            timer_state(game.player_shoot_timer.0) == fresh(PLAYER_SHOOT_COOLDOWN as nat, false),
            timer_state(game.invader_shoot_timer.0) == fresh(INVADER_SHOOT_PERIOD as nat, true),
            timer_state(game.player_hit_timer.0) == fresh(PLAYER_HIT_DURATION as nat, false),
            timer_state(game.player_hit_animation_timer.0) == fresh(
                PLAYER_HIT_FLICKER_PERIOD as nat,
                true,
            ),
            timer_state(game.respawning_invaders_timer.0) == fresh(RESPAWN_DELAY as nat, false),
    {
        Game {
            elapsed_nanos: 0,
            game_state: GameState::Playing,
            direction: InvaderDirection::Right,
            speed: InvaderSpeed(INVADER_SPEED),
            invader_timer: InvaderTimer(new_timer(INVADER_STEP_PERIOD, true)),
            player_shoot_timer: PlayerShootTimer(new_timer(PLAYER_SHOOT_COOLDOWN, false)),
            invader_shoot_timer: InvaderShootTimer(new_timer(INVADER_SHOOT_PERIOD, true)),
            player_hit_timer: PlayerHitTimer(new_timer(PLAYER_HIT_DURATION, false)),
            player_hit_animation_timer: PlayerHitAnimationTimer(
                new_timer(PLAYER_HIT_FLICKER_PERIOD, true),
            ),
            respawning_invaders_timer: RespawningInvadersTimer(new_timer(RESPAWN_DELAY, false)),
            players: Vec::new(),
            shields: Vec::new(),
            invaders: Vec::new(),
            player_bullets: Vec::new(),
            invader_bullets: Vec::new(),
            scores: Vec::new(),
            lives: Vec::new(),
            game_over_texts: Vec::new(),
            restart_buttons: Vec::new(),
            restart_texts: Vec::new(),
        }
    }
}

} // verus!
