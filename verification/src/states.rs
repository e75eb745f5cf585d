//! What the game does in each of its states besides play itself: the hit
//! pause, the end of the game and the restart, the respawn of the formation
//! and the pause that follows it.

use crate::components::GameOverText;
use crate::components::GameRestartButton;
use crate::components::GameRestartText;
use crate::components::Player;
use crate::enums::CursorIcon;
use crate::enums::Interaction;
use crate::enums::Texture;
use crate::game::Game;
use crate::game::WindowSize;
use crate::resources::GameState;
use crate::setup::setup_invaders;
use crate::setup::setup_invaders_post;
use crate::timer::finished;
use crate::timer::lemma_one_shot_finishes;
use crate::timer::lemma_timer_stays_ok;
use crate::timer::reset;
use crate::timer::restarted;
use crate::timer::tick;
use crate::timer::ticked;
use crate::timer::timer_state;
use crate::timer::TimerState;
use vstd::prelude::*;

verus! {

/// Length of one cycle of a hit player's flicker, in nanoseconds.
pub const FLICKER_CYCLE: u64 = 200_000_000;

/// Distance of the words "game over" to the left of a quarter of the
/// window's width, in sub-units.
pub const GAME_OVER_TEXT_INSET: i64 = 12_500_000_000;

/// Distance of the restart control above the middle of the window, in
/// sub-units.
pub const RESTART_BUTTON_RISE: i64 = 10_000_000_000;

/// Distance of the restart control to the left of the middle of the window,
/// in sub-units.
pub const RESTART_BUTTON_INSET: i64 = 82_000_000_000;

/// The texture of a hit player at the time `elapsed_nanos` on the game's
/// clock: the two hit textures take turns, half a cycle each.
pub open spec fn flicker_texture(elapsed_nanos: u64) -> Texture {
    if elapsed_nanos % FLICKER_CYCLE < FLICKER_CYCLE / 2 {
        Texture::PlayerHit2
    } else {
        Texture::PlayerHit1
    }
}

/// Computes [`flicker_texture`].
pub fn flicker(elapsed_nanos: u64) -> (t: Texture)
    ensures
        t == flicker_texture(elapsed_nanos),
{
    if elapsed_nanos % FLICKER_CYCLE < FLICKER_CYCLE / 2 {
        Texture::PlayerHit2
    } else {
        Texture::PlayerHit1
    }
}

/// The players, each with the texture `t`.
pub open spec fn repainted(players: Seq<Player>, t: Texture) -> Seq<Player> {
    Seq::new(players.len(), |i: int| Player { texture: t, ..players[i] })
}

/// Gives every player the texture `t`.
pub fn repaint_players(players: &mut Vec<Player>, t: Texture)
    ensures
        final(players)@ == repainted(old(players)@, t),
{
    let mut i: usize = 0;
    while i < players.len()
        invariant
            i <= players@.len(),
            players@.len() == old(players)@.len(),
            forall|k: int|
                0 <= k < i ==> #[trigger] players@[k] == (Player {
                    texture: t,
                    ..old(players)@[k]
                }),
            forall|k: int| i <= k < players@.len() ==> #[trigger] players@[k] == old(players)@[k],
        decreases players@.len() - i,
    {
        let p = players[i];
        players.set(
            i,
            Player {
                speed: p.speed,
                lives: p.lives,
                score: p.score,
                id: p.id,
                is_hit: p.is_hit,
                x: p.x,
                y: p.y,
                texture: t,
            },
        );
        i += 1;
    }
    assert(players@ =~= repainted(old(players)@, t));
}

/// The flicker timer after a tick of the hit animation: it starts again
/// each time it is found finished.
pub open spec fn flicker_timer_after(s: TimerState, delta_nanos: u64) -> TimerState {
    if ticked(s, delta_nanos as nat).finished {
        restarted(ticked(s, delta_nanos as nat))
    } else {
        ticked(s, delta_nanos as nat)
    }
}

/// The players after a tick of the hit animation: when the flicker timer
/// is found finished, they all take the texture of the moment.
pub open spec fn flickered(
    players: Seq<Player>,
    s: TimerState,
    delta_nanos: u64,
    elapsed_nanos: u64,
) -> Seq<Player> {
    if ticked(s, delta_nanos as nat).finished {
        repainted(players, flicker_texture(elapsed_nanos))
    } else {
        players
    }
}

/// What a tick does while a player is hit. Both timers advance. When the
/// hit timer is then finished, play resumes: the players get their normal
/// texture back and the hit timer is reset for the next hit. Until then the
/// players flicker and every bullet is removed. Nothing else changes.
pub open spec fn player_hit_animation_post(pre: Game, post: Game, delta_nanos: u64) -> bool {
    let hit = ticked(timer_state(pre.player_hit_timer.0), delta_nanos as nat);
    let flicker = timer_state(pre.player_hit_animation_timer.0);
    if hit.finished {
        &&& post.game_state == GameState::Playing
        &&& post.players@ == repainted(pre.players@, Texture::Player)
        &&& timer_state(post.player_hit_timer.0) == restarted(hit)
        &&& timer_state(post.player_hit_animation_timer.0) == ticked(flicker, delta_nanos as nat)
        &&& post == (Game {
            game_state: post.game_state,
            players: post.players,
            player_hit_timer: post.player_hit_timer,
            player_hit_animation_timer: post.player_hit_animation_timer,
            ..pre
        })
    } else {
        &&& timer_state(post.player_hit_timer.0) == hit
        &&& timer_state(post.player_hit_animation_timer.0) == flicker_timer_after(
            flicker,
            delta_nanos,
        )
        &&& post.players@ == flickered(pre.players@, flicker, delta_nanos, pre.elapsed_nanos)
        &&& post.player_bullets@.len() == 0
        &&& post.invader_bullets@.len() == 0
        &&& post == (Game {
            players: post.players,
            player_hit_timer: post.player_hit_timer,
            player_hit_animation_timer: post.player_hit_animation_timer,
            player_bullets: post.player_bullets,
            invader_bullets: post.invader_bullets,
            ..pre
        })
    }
}

/// Runs one tick of the hit pause, as [`player_hit_animation_post`] says.
pub fn player_hit_animation(game: &mut Game, delta_nanos: u64)
    requires
        old(game).wf(),
    ensures
        player_hit_animation_post(*old(game), *final(game), delta_nanos),
        final(game).wf(),
{
    proof {
        let hit = timer_state(game.player_hit_timer.0);
        let flicker = timer_state(game.player_hit_animation_timer.0);
        lemma_timer_stays_ok(hit, delta_nanos as nat);
        lemma_timer_stays_ok(ticked(hit, delta_nanos as nat), 0);
        lemma_timer_stays_ok(flicker, delta_nanos as nat);
        lemma_timer_stays_ok(ticked(flicker, delta_nanos as nat), 0);
    }
    tick(&mut game.player_hit_timer.0, delta_nanos);
    tick(&mut game.player_hit_animation_timer.0, delta_nanos);
    if finished(&game.player_hit_timer.0) {
        game.game_state = GameState::Playing;
        repaint_players(&mut game.players, Texture::Player);
        reset(&mut game.player_hit_timer.0);
        return ;
    }
    if finished(&game.player_hit_animation_timer.0) {
        repaint_players(&mut game.players, flicker(game.elapsed_nanos));
        reset(&mut game.player_hit_animation_timer.0);
    }
    game.player_bullets.clear();
    game.invader_bullets.clear();
}

/// The words "game over" as they are placed in a window of the given size.
pub open spec fn game_over_text(window: WindowSize) -> GameOverText {
    GameOverText {
        top: (window.height / 4) as i64,
        left: (window.width / 4 - GAME_OVER_TEXT_INSET) as i64,
    }
}

/// The restart control as it is placed in a window of the given size.
pub open spec fn restart_button(window: WindowSize) -> GameRestartButton {
    GameRestartButton {
        top: (window.height / 2 - RESTART_BUTTON_RISE) as i64,
        left: (window.width / 2 - RESTART_BUTTON_INSET) as i64,
    }
}

/// What a tick does once the game is over. As long as the hit timer has not
/// finished, it and the flicker timer advance and the players flicker. Every
/// bullet and every invader is removed. The prompt (the words, the restart
/// control and its label) is shown, unless a restart control is there
/// already. Nothing else changes.
pub open spec fn game_over_post(
    pre: Game,
    post: Game,
    delta_nanos: u64,
    window: WindowSize,
) -> bool {
    let hit = timer_state(pre.player_hit_timer.0);
    let flicker = timer_state(pre.player_hit_animation_timer.0);
    &&& timer_state(post.player_hit_timer.0) == if hit.finished {
        hit
    } else {
        ticked(hit, delta_nanos as nat)
    }
    &&& timer_state(post.player_hit_animation_timer.0) == if hit.finished {
        flicker
    } else {
        flicker_timer_after(flicker, delta_nanos)
    }
    &&& post.players@ == if hit.finished {
        pre.players@
    } else {
        flickered(pre.players@, flicker, delta_nanos, pre.elapsed_nanos)
    }
    &&& post.player_bullets@.len() == 0
    &&& post.invader_bullets@.len() == 0
    &&& post.invaders@.len() == 0
    &&& if pre.restart_buttons@.len() > 0 {
        &&& post.game_over_texts@ == pre.game_over_texts@
        &&& post.restart_buttons@ == pre.restart_buttons@
        &&& post.restart_texts@ == pre.restart_texts@
    } else {
        &&& post.game_over_texts@ == pre.game_over_texts@.push(game_over_text(window))
        &&& post.restart_buttons@ == pre.restart_buttons@.push(restart_button(window))
        &&& post.restart_texts@ == pre.restart_texts@.push(GameRestartText {  })
    }
    &&& post == (Game {
        players: post.players,
        player_hit_timer: post.player_hit_timer,
        player_hit_animation_timer: post.player_hit_animation_timer,
        player_bullets: post.player_bullets,
        invader_bullets: post.invader_bullets,
        invaders: post.invaders,
        game_over_texts: post.game_over_texts,
        restart_buttons: post.restart_buttons,
        restart_texts: post.restart_texts,
        ..pre
    })
}

/// Runs one tick of the end of the game, as [`game_over_post`] says.
pub fn game_over(game: &mut Game, delta_nanos: u64, window: WindowSize)
    requires
        old(game).wf(),
    ensures
        game_over_post(*old(game), *final(game), delta_nanos, window),
        final(game).wf(),
{
    proof {
        let hit = timer_state(game.player_hit_timer.0);
        let flicker = timer_state(game.player_hit_animation_timer.0);
        lemma_timer_stays_ok(hit, delta_nanos as nat);
        lemma_timer_stays_ok(flicker, delta_nanos as nat);
        lemma_timer_stays_ok(ticked(flicker, delta_nanos as nat), 0);
    }
    if !finished(&game.player_hit_timer.0) {
        tick(&mut game.player_hit_timer.0, delta_nanos);
        tick(&mut game.player_hit_animation_timer.0, delta_nanos);
        if finished(&game.player_hit_animation_timer.0) {
            repaint_players(&mut game.players, flicker(game.elapsed_nanos));
            reset(&mut game.player_hit_animation_timer.0);
        }
    }
    game.player_bullets.clear();
    game.invader_bullets.clear();
    game.invaders.clear();
    if game.restart_buttons.len() > 0 {
        return ;
    }
    game.game_over_texts.push(
        GameOverText {
            top: (window.height / 4) as i64,
            left: (window.width / 4) as i64 - GAME_OVER_TEXT_INSET,
        },
    );
    game.restart_buttons.push(
        GameRestartButton {
            top: (window.height / 2) as i64 - RESTART_BUTTON_RISE,
            left: (window.width / 2) as i64 - RESTART_BUTTON_INSET,
        },
    );
    game.restart_texts.push(GameRestartText {  });
}

/// The pointer's shape that an interaction with the restart control asks
/// for: a hand over the control, an arrow beside it, and no change on a
/// press or without an interaction.
pub open spec fn cursor_for(interaction: Option<Interaction>) -> Option<CursorIcon> {
    match interaction {
        Some(Interaction::Hovered) => Some(CursorIcon::Pointer),
        Some(Interaction::Idle) => Some(CursorIcon::Arrow),
        _ => None,
    }
}

/// What the restart control does. A press removes every shield segment,
/// player, score display, life icon and part of the prompt, resets the hit
/// timer and puts the game in `Restarting`. Anything else leaves the game
/// as it is.
pub open spec fn play_again_post(pre: Game, post: Game, interaction: Option<Interaction>) -> bool {
    if interaction == Some(Interaction::Pressed) {
        &&& post.game_state == GameState::Restarting
        &&& timer_state(post.player_hit_timer.0) == restarted(timer_state(pre.player_hit_timer.0))
        &&& post.shields@.len() == 0
        &&& post.players@.len() == 0
        &&& post.game_over_texts@.len() == 0
        &&& post.restart_buttons@.len() == 0
        &&& post.restart_texts@.len() == 0
        &&& post.scores@.len() == 0
        &&& post.lives@.len() == 0
        &&& post == (Game {
            game_state: post.game_state,
            player_hit_timer: post.player_hit_timer,
            shields: post.shields,
            players: post.players,
            game_over_texts: post.game_over_texts,
            restart_buttons: post.restart_buttons,
            restart_texts: post.restart_texts,
            scores: post.scores,
            lives: post.lives,
            ..pre
        })
    } else {
        post == pre
    }
}

/// Handles this tick's interaction with the restart control, as
/// [`play_again_post`] says, and returns the shape that the pointer is to
/// take, if it is to change.
pub fn play_again(game: &mut Game, interaction: Option<Interaction>) -> (cursor: Option<CursorIcon>)
    ensures
        play_again_post(*old(game), *final(game), interaction),
        cursor == cursor_for(interaction),
        old(game).wf() ==> final(game).wf(),
{
    match interaction {
        Some(Interaction::Pressed) => {
            proof {
                if old(game).wf() {
                    lemma_timer_stays_ok(timer_state(game.player_hit_timer.0), 0);
                }
            }
            game.shields.clear();
            game.players.clear();
            game.game_over_texts.clear();
            game.restart_buttons.clear();
            game.restart_texts.clear();
            game.scores.clear();
            game.lives.clear();
            reset(&mut game.player_hit_timer.0);
            game.game_state = GameState::Restarting;
            None
        },
        Some(Interaction::Hovered) => Some(CursorIcon::Pointer),
        Some(Interaction::Idle) => Some(CursorIcon::Arrow),
        None => None,
    }
}

/// What the defeat check does: if play goes on and no invader is left, the
/// game goes to `RespawningInvaders`. A game that a hit has just ended or
/// interrupted stays as the hit left it. Nothing else changes.
pub open spec fn check_if_invaders_defeated_post(pre: Game, post: Game) -> bool {
    post == (Game {
        game_state: if pre.invaders@.len() == 0 && pre.game_state == GameState::Playing {
            GameState::RespawningInvaders
        } else {
            pre.game_state
        },
        ..pre
    })
}

/// Runs the defeat check, as [`check_if_invaders_defeated_post`] says.
pub fn check_if_invaders_defeated(game: &mut Game)
    ensures
        check_if_invaders_defeated_post(*old(game), *final(game)),
{
    if game.invaders.len() == 0 && game.game_state == GameState::Playing {
        game.game_state = GameState::RespawningInvaders;
    }
}

/// What the respawn does: the formation is set up again, as
/// [`setup_invaders_post`] says, and the game goes to `Pausing`.
pub open spec fn respawn_invaders_post(pre: Game, post: Game) -> bool {
    &&& setup_invaders_post(pre, Game { game_state: pre.game_state, ..post })
    &&& post.game_state == GameState::Pausing
}

/// Respawns the formation, as [`respawn_invaders_post`] says.
pub fn respawn_invaders(game: &mut Game)
    ensures
        respawn_invaders_post(*old(game), *final(game)),
{
    setup_invaders(game);
    game.game_state = GameState::Pausing;
}

/// What a tick does while the game pauses after a respawn: the respawn
/// timer advances, and when it is then finished, play resumes and the timer
/// is reset for the next pause. Nothing else changes.
pub open spec fn pause_game_post(pre: Game, post: Game, delta_nanos: u64) -> bool {
    let timer = ticked(timer_state(pre.respawning_invaders_timer.0), delta_nanos as nat);
    &&& timer_state(post.respawning_invaders_timer.0) == if timer.finished {
        restarted(timer)
    } else {
        timer
    }
    &&& post == (Game {
        respawning_invaders_timer: post.respawning_invaders_timer,
        game_state: if timer.finished {
            GameState::Playing
        } else {
            pre.game_state
        },
        ..pre
    })
}

/// Runs one tick of the pause, as [`pause_game_post`] says.
pub fn pause_game(game: &mut Game, delta_nanos: u64)
    requires
        old(game).wf(),
    ensures
        pause_game_post(*old(game), *final(game), delta_nanos),
        final(game).wf(),
{
    proof {
        let s = timer_state(game.respawning_invaders_timer.0);
        lemma_timer_stays_ok(s, delta_nanos as nat);
        lemma_timer_stays_ok(ticked(s, delta_nanos as nat), 0);
    }
    tick(&mut game.respawning_invaders_timer.0, delta_nanos);
    if finished(&game.respawning_invaders_timer.0) {
        game.game_state = GameState::Playing;
        reset(&mut game.respawning_invaders_timer.0);
    }
}

/// The pause after a respawn lasts until the delay has run out: a tick
/// during the pause resumes play exactly when the time accumulated on the
/// running one-shot delay timer, this tick included, reaches its duration.
/// Nothing is created, removed or moved meanwhile.
pub proof fn lemma_pause_ends_when_due(pre: Game, post: Game, delta_nanos: u64)
    requires
        pause_game_post(pre, post, delta_nanos),
        pre.game_state == GameState::Pausing,
        !timer_state(pre.respawning_invaders_timer.0).paused,
        !timer_state(pre.respawning_invaders_timer.0).repeating,
        !timer_state(pre.respawning_invaders_timer.0).finished,
    ensures
        post.game_state == if timer_state(pre.respawning_invaders_timer.0).elapsed + delta_nanos
            >= timer_state(pre.respawning_invaders_timer.0).duration {
            GameState::Playing
        } else {
            GameState::Pausing
        },
        post == (Game {
            game_state: post.game_state,
            respawning_invaders_timer: post.respawning_invaders_timer,
            ..pre
        }),
{
    lemma_one_shot_finishes(timer_state(pre.respawning_invaders_timer.0), delta_nanos as nat);
}

/// Every pause begins with the delay unspent: a tick of the pause never
/// leaves the delay timer finished, and when the delay runs out in it, the
/// timer is back at zero. So the next pause lasts its full delay again.
pub proof fn lemma_pause_rearms_delay(pre: Game, post: Game, delta_nanos: u64)
    requires
        pause_game_post(pre, post, delta_nanos),
    ensures
        !timer_state(post.respawning_invaders_timer.0).finished,
        ticked(timer_state(pre.respawning_invaders_timer.0), delta_nanos as nat).finished ==> {
            &&& post.game_state == GameState::Playing
            &&& timer_state(post.respawning_invaders_timer.0).elapsed == 0
        },
{
}

/// The pause after a hit lasts until the hit timer has run out: a tick
/// during the pause resumes play exactly when the time accumulated on the
/// running one-shot hit timer, this tick included, reaches its duration. The timer
/// then starts from zero for the next hit.
pub proof fn lemma_hit_pause_ends_when_due(pre: Game, post: Game, delta_nanos: u64)
    requires
        player_hit_animation_post(pre, post, delta_nanos),
        pre.game_state == GameState::PlayerHit,
        !timer_state(pre.player_hit_timer.0).paused,
        !timer_state(pre.player_hit_timer.0).repeating,
        !timer_state(pre.player_hit_timer.0).finished,
    ensures
        post.game_state == GameState::Playing || post.game_state == GameState::PlayerHit,
        post.game_state == GameState::Playing <==> timer_state(pre.player_hit_timer.0).elapsed
            + delta_nanos >= timer_state(pre.player_hit_timer.0).duration,
        post.game_state == GameState::Playing ==> timer_state(post.player_hit_timer.0).elapsed == 0
            && !timer_state(post.player_hit_timer.0).finished,
{
    lemma_one_shot_finishes(timer_state(pre.player_hit_timer.0), delta_nanos as nat);
}

} // verus!
