//! One tick of the game: the state decides which subsystems run, and in
//! which order.

use crate::collision::bullet_collision_detection;
use crate::collision::bullet_collision_detection_post;
use crate::collision::lemma_passes_decide_state;
use crate::collision::lemma_passes_keep_players;
use crate::collision::no_life_lost;
use crate::components::Player;
use crate::enums::CursorIcon;
use crate::enums::Interaction;
use crate::game::Game;
use crate::game::WindowSize;
use crate::ledger::update_player_lives;
use crate::ledger::update_player_lives_post;
use crate::ledger::update_player_score;
use crate::ledger::update_player_score_post;
use crate::movement::bullets_movement;
use crate::movement::bullets_movement_post;
use crate::movement::invaders_movement;
use crate::movement::invaders_movement_post;
use crate::movement::players_movement;
use crate::movement::players_movement_post;
use crate::resources::GameState;
use crate::setup::setup_game;
use crate::setup::setup_game_post;
use crate::setup::setup_invaders_post;
use crate::setup::setup_player_lives_post;
use crate::setup::setup_player_post;
use crate::setup::setup_player_score_post;
use crate::setup::setup_shields_post;
use crate::states::check_if_invaders_defeated;
use crate::states::check_if_invaders_defeated_post;
use crate::states::cursor_for;
use crate::states::game_over;
use crate::states::game_over_post;
use crate::states::pause_game;
use crate::states::pause_game_post;
use crate::states::play_again;
use crate::states::play_again_post;
use crate::states::player_hit_animation;
use crate::states::player_hit_animation_post;
use crate::states::respawn_invaders;
use crate::states::respawn_invaders_post;
use crate::weapons::invaders_shooting;
use crate::weapons::invaders_shooting_post;
use crate::weapons::spawn_player_bullets;
use crate::weapons::spawn_player_bullets_post;
use vstd::prelude::*;

verus! {

/// What the outside world hands to a tick.
#[derive(Clone, Copy, Debug, PartialEq, Eq)]
pub struct Frame {
    /// Whether the left key is held.
    pub left: bool,
    /// Whether the right key is held.
    pub right: bool,
    /// Whether the fire key went down in this tick.
    pub fire: bool,
    /// What the pointer did to the restart control in this tick, if anything.
    pub interaction: Option<Interaction>,
    /// Time since the previous tick, in nanoseconds.
    pub delta_nanos: u64,
    /// Size of the window.
    pub window: WindowSize,
}

impl Game {
    /// A game that can be ticked: it is well formed and, outside a restart,
    /// it holds a player.
    pub open spec fn ready(&self) -> bool {
        &&& self.wf()
        &&& self.game_state != GameState::Restarting ==> self.players@.len() > 0
    }
}

/// What a tick of play does. The subsystems run in a fixed order, each on
/// the game as the one before left it: the players move, the bullets move,
/// the formation steps, the player's weapon and the invaders' weapons fire,
/// the collisions are resolved, the displays of score and lives catch up,
/// and the defeat check runs last.
pub open spec fn playing_post(pre: Game, post: Game, frame: Frame) -> bool {
    exists|a: Game, b: Game, c: Game, d: Game, e: Game, f: Game, g: Game, h: Game|
        {
            &&& #[trigger] players_movement_post(
                pre,
                a,
                frame.window.width,
                frame.left,
                frame.right,
                frame.delta_nanos,
            )
            &&& #[trigger] bullets_movement_post(a, b, frame.delta_nanos)
            &&& #[trigger] invaders_movement_post(b, c, frame.delta_nanos)
            &&& #[trigger] spawn_player_bullets_post(c, d, frame.fire, frame.delta_nanos)
            &&& #[trigger] invaders_shooting_post(d, e, frame.delta_nanos)
            &&& #[trigger] bullet_collision_detection_post(e, f)
            &&& #[trigger] update_player_score_post(f, g)
            &&& #[trigger] update_player_lives_post(g, h)
            &&& #[trigger] check_if_invaders_defeated_post(h, post)
        }
}

/// What a tick does once the game is over: the end of the game runs, then
/// the restart control is handled.
pub open spec fn game_over_tick_post(pre: Game, post: Game, frame: Frame) -> bool {
    exists|a: Game|
        {
            &&& #[trigger] game_over_post(pre, a, frame.delta_nanos, frame.window)
            &&& play_again_post(a, post, frame.interaction)
        }
}

/// The game once its clock has taken in a tick of `delta_nanos`
/// nanoseconds.
pub open spec fn clock_advanced(g: Game, delta_nanos: u64) -> Game {
    Game {
        elapsed_nanos: if g.elapsed_nanos + delta_nanos > u64::MAX {
            u64::MAX
        } else {
            (g.elapsed_nanos + delta_nanos) as u64
        },
        ..g
    }
}

/// What a tick does: the clock takes the tick in, and then exactly the
/// subsystems of the state in which the tick begins run, even where one of
/// them changes the state on the way.
pub open spec fn update_post(pre: Game, post: Game, frame: Frame) -> bool {
    let now = clock_advanced(pre, frame.delta_nanos);
    match pre.game_state {
        GameState::Playing => playing_post(now, post, frame),
        GameState::PlayerHit => player_hit_animation_post(now, post, frame.delta_nanos),
        GameState::RespawningInvaders => respawn_invaders_post(now, post),
        GameState::Pausing => pause_game_post(now, post, frame.delta_nanos),
        GameState::GameOver => game_over_tick_post(now, post, frame),
        GameState::Restarting => setup_game_post(now, post),
    }
}

/// Runs one tick of play, as [`playing_post`] says.
pub fn playing(game: &mut Game, frame: &Frame)
    requires
        old(game).wf(),
        old(game).players@.len() > 0,
    ensures
        playing_post(*old(game), *final(game), *frame),
        final(game).wf(),
        final(game).players@.len() > 0,
        old(game).game_state != GameState::Restarting ==> final(game).game_state
            != GameState::Restarting,
{
    players_movement(game, frame.window.width, frame.left, frame.right, frame.delta_nanos);
    let ghost a = *game;
    bullets_movement(game, frame.delta_nanos);
    let ghost b = *game;
    invaders_movement(game, frame.delta_nanos);
    let ghost c = *game;
    spawn_player_bullets(game, frame.fire, frame.delta_nanos);
    let ghost d = *game;
    invaders_shooting(game, frame.delta_nanos);
    let ghost e = *game;
    bullet_collision_detection(game);
    let ghost f = *game;
    update_player_score(game);
    let ghost g = *game;
    update_player_lives(game);
    let ghost h = *game;
    check_if_invaders_defeated(game);
    assert(players_movement_post(
        *old(game),
        a,
        frame.window.width,
        frame.left,
        frame.right,
        frame.delta_nanos,
    ) && bullets_movement_post(a, b, frame.delta_nanos) && invaders_movement_post(
        b,
        c,
        frame.delta_nanos,
    ) && spawn_player_bullets_post(c, d, frame.fire, frame.delta_nanos)
        && invaders_shooting_post(d, e, frame.delta_nanos) && bullet_collision_detection_post(e, f)
        && update_player_score_post(f, g) && update_player_lives_post(g, h)
        && check_if_invaders_defeated_post(h, *game));
}

/// Runs one tick, as [`update_post`] says, and returns the shape that the
/// pointer is to take, if it is to change: only the restart control, and so
/// only a tick that begins with the game over, asks for one.
pub fn update(game: &mut Game, frame: &Frame) -> (cursor: Option<CursorIcon>)
    requires
        old(game).ready(),
    ensures
        update_post(*old(game), *final(game), *frame),
        cursor == if old(game).game_state == GameState::GameOver {
            cursor_for(frame.interaction)
        } else {
            None
        },
        final(game).ready(),
{
    game.elapsed_nanos = if game.elapsed_nanos > u64::MAX - frame.delta_nanos {
        u64::MAX
    } else {
        game.elapsed_nanos + frame.delta_nanos
    };
    let ghost now = *game;
    match game.game_state {
        GameState::Playing => {
            playing(game, frame);
            None
        },
        GameState::PlayerHit => {
            player_hit_animation(game, frame.delta_nanos);
            None
        },
        GameState::RespawningInvaders => {
            respawn_invaders(game);
            None
        },
        GameState::Pausing => {
            pause_game(game, frame.delta_nanos);
            None
        },
        GameState::GameOver => {
            game_over(game, frame.delta_nanos, frame.window);
            let ghost a = *game;
            let cursor = play_again(game, frame.interaction);
            assert(game_over_post(now, a, frame.delta_nanos, frame.window) && play_again_post(
                a,
                *game,
                frame.interaction,
            ));
            cursor
        },
        GameState::Restarting => {
            setup_game(game);
            None
        },
    }
}

/// The transitions of the state machine: whether a tick that begins in the
/// state `from` may end in the state `to`.
pub open spec fn may_follow(from: GameState, to: GameState) -> bool {
    match from {
        GameState::Playing => to == GameState::Playing || to == GameState::PlayerHit || to
            == GameState::GameOver || to == GameState::RespawningInvaders,
        GameState::PlayerHit => to == GameState::PlayerHit || to == GameState::Playing,
        GameState::GameOver => to == GameState::GameOver || to == GameState::Restarting,
        GameState::Restarting => to == GameState::Playing,
        GameState::RespawningInvaders => to == GameState::Pausing,
        GameState::Pausing => to == GameState::Pausing || to == GameState::Playing,
    }
}

/// A tick makes no other transition than those of the state machine. Out
/// of the end of the game it is the press on the restart control, and
/// nothing else, that leads on.
pub proof fn lemma_transitions(pre: Game, post: Game, frame: Frame)
    requires
        update_post(pre, post, frame),
    ensures
        may_follow(pre.game_state, post.game_state),
        pre.game_state == GameState::GameOver ==> (post.game_state == GameState::Restarting
            <==> frame.interaction == Some(Interaction::Pressed)),
{
    let now = clock_advanced(pre, frame.delta_nanos);
    match pre.game_state {
        GameState::Playing => {
            let (a, b, c, d, e, f, g, h) = choose|
                a: Game,
                b: Game,
                c: Game,
                d: Game,
                e: Game,
                f: Game,
                g: Game,
                h: Game,
            |
                {
                    &&& #[trigger] players_movement_post(
                        now,
                        a,
                        frame.window.width,
                        frame.left,
                        frame.right,
                        frame.delta_nanos,
                    )
                    &&& #[trigger] bullets_movement_post(a, b, frame.delta_nanos)
                    &&& #[trigger] invaders_movement_post(b, c, frame.delta_nanos)
                    &&& #[trigger] spawn_player_bullets_post(c, d, frame.fire, frame.delta_nanos)
                    &&& #[trigger] invaders_shooting_post(d, e, frame.delta_nanos)
                    &&& #[trigger] bullet_collision_detection_post(e, f)
                    &&& #[trigger] update_player_score_post(f, g)
                    &&& #[trigger] update_player_lives_post(g, h)
                    &&& #[trigger] check_if_invaders_defeated_post(h, post)
                };
            assert(e.game_state == GameState::Playing);
            lemma_passes_keep_players(
                e.arena(),
                e.player_bullets@,
                e.player_bullets@.len(),
                e.invader_bullets@,
                e.invader_bullets@.len(),
            );
            assert(h.game_state == f.game_state);
        },
        GameState::GameOver => {
            let a = choose|a: Game|
                {
                    &&& #[trigger] game_over_post(now, a, frame.delta_nanos, frame.window)
                    &&& play_again_post(a, post, frame.interaction)
                };
            assert(a.game_state == GameState::GameOver);
        },
        GameState::Restarting => {
            let (a, b, c, d) = choose|a: Game, b: Game, c: Game, d: Game|
                {
                    &&& #[trigger] setup_player_post(now, a)
                    &&& #[trigger] setup_player_score_post(a, b)
                    &&& #[trigger] setup_player_lives_post(b, c)
                    &&& #[trigger] setup_shields_post(c, d)
                    &&& #[trigger] setup_invaders_post(d, post)
                };
            assert(b.game_state == GameState::Restarting);
            assert(c.game_state == GameState::Playing);
        },
        _ => {},
    }
}

/// A tick of play that begins with the game `Playing` and no invader left
/// ends with no invader still. If no player lost a life in it, the game goes
/// to `RespawningInvaders`; if one did, the hit decides and the game is
/// `PlayerHit` or `GameOver`.
pub proof fn lemma_defeat_leads_to_respawn(pre: Game, post: Game, frame: Frame)
    requires
        playing_post(pre, post, frame),
        pre.game_state == GameState::Playing,
        pre.invaders@.len() == 0,
    ensures
        post.invaders@.len() == 0,
        post.players@.len() == pre.players@.len(),
        no_life_lost(pre.players@, post.players@) ==> post.game_state
            == GameState::RespawningInvaders,
        !no_life_lost(pre.players@, post.players@) ==> post.game_state == GameState::PlayerHit
            || post.game_state == GameState::GameOver,
{
    let (a, b, c, d, e, f, g, h) = choose|
        a: Game,
        b: Game,
        c: Game,
        d: Game,
        e: Game,
        f: Game,
        g: Game,
        h: Game,
    |
        {
            &&& #[trigger] players_movement_post(
                pre,
                a,
                frame.window.width,
                frame.left,
                frame.right,
                frame.delta_nanos,
            )
            &&& #[trigger] bullets_movement_post(a, b, frame.delta_nanos)
            &&& #[trigger] invaders_movement_post(b, c, frame.delta_nanos)
            &&& #[trigger] spawn_player_bullets_post(c, d, frame.fire, frame.delta_nanos)
            &&& #[trigger] invaders_shooting_post(d, e, frame.delta_nanos)
            &&& #[trigger] bullet_collision_detection_post(e, f)
            &&& #[trigger] update_player_score_post(f, g)
            &&& #[trigger] update_player_lives_post(g, h)
            &&& #[trigger] check_if_invaders_defeated_post(h, post)
        };
    assert(e.invaders@.len() == 0);
    assert(e.game_state == GameState::Playing);
    lemma_passes_keep_players(
        e.arena(),
        e.player_bullets@,
        e.player_bullets@.len(),
        e.invader_bullets@,
        e.invader_bullets@.len(),
    );
    lemma_passes_decide_state(
        e.arena(),
        e.player_bullets@,
        e.player_bullets@.len(),
        e.invader_bullets@,
        e.invader_bullets@.len(),
    );
    assert(f.invaders@.len() == 0);
    assert(e.players@ == a.players@);
    assert(post.players@ == f.players@);
    assert forall|i: int| 0 <= i < pre.players@.len() implies (#[trigger] a.players@[i]).lives
        == pre.players@[i].lives by {}
    lemma_lives_carry_over(pre.players@, a.players@, f.players@);
}

/// A tick of play in which a player loses its last life ends with the game
/// over, whatever else happens in the tick: neither a later hit on another
/// player nor the fall of the last invader takes that back.
pub proof fn lemma_last_life_ends_the_game(pre: Game, post: Game, frame: Frame, i: int)
    requires
        playing_post(pre, post, frame),
        0 <= i < pre.players@.len(),
        pre.players@[i].lives > 0,
        post.players@[i].lives == 0,
    ensures
        post.game_state == GameState::GameOver,
{
    let (a, b, c, d, e, f, g, h) = choose|
        a: Game,
        b: Game,
        c: Game,
        d: Game,
        e: Game,
        f: Game,
        g: Game,
        h: Game,
    |
        {
            &&& #[trigger] players_movement_post(
                pre,
                a,
                frame.window.width,
                frame.left,
                frame.right,
                frame.delta_nanos,
            )
            &&& #[trigger] bullets_movement_post(a, b, frame.delta_nanos)
            &&& #[trigger] invaders_movement_post(b, c, frame.delta_nanos)
            &&& #[trigger] spawn_player_bullets_post(c, d, frame.fire, frame.delta_nanos)
            &&& #[trigger] invaders_shooting_post(d, e, frame.delta_nanos)
            &&& #[trigger] bullet_collision_detection_post(e, f)
            &&& #[trigger] update_player_score_post(f, g)
            &&& #[trigger] update_player_lives_post(g, h)
            &&& #[trigger] check_if_invaders_defeated_post(h, post)
        };
    lemma_passes_decide_state(
        e.arena(),
        e.player_bullets@,
        e.player_bullets@.len(),
        e.invader_bullets@,
        e.invader_bullets@.len(),
    );
    assert(e.players@ == a.players@);
    assert(post.players@ == f.players@);
    assert(a.players@[i].lives == pre.players@[i].lives);
    assert(f.players@[i].lives == 0);
    assert(f.game_state == GameState::GameOver);
    assert(h.game_state == f.game_state);
}

/// Lives that a movement tick left alone are lost after it exactly where
/// they are lost from before it.
proof fn lemma_lives_carry_over(pre: Seq<Player>, moved: Seq<Player>, after: Seq<Player>)
    requires
        moved.len() == pre.len(),
        after.len() == pre.len(),
        forall|i: int| 0 <= i < pre.len() ==> (#[trigger] moved[i]).lives == pre[i].lives,
    ensures
        no_life_lost(pre, after) == no_life_lost(moved, after),
{
    if no_life_lost(pre, after) {
        assert forall|i: int| 0 <= i < moved.len() implies (#[trigger] after[i]).lives
            == moved[i].lives by {
            assert(after[i].lives == pre[i].lives);
        }
    }
    if no_life_lost(moved, after) {
        assert forall|i: int| 0 <= i < pre.len() implies (#[trigger] after[i]).lives
            == pre[i].lives by {
            assert(after[i].lives == moved[i].lives);
            assert(moved[i].lives == pre[i].lives);
        }
    }
}

} // verus!
