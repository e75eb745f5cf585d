//! Movement: the player under the keys, the bullets along their velocity,
//! and the formation in lock step.

use crate::components::Bullet;
use crate::components::Invader;
use crate::components::InvaderBullet;
use crate::components::Player;
use crate::components::PlayerBullet;
use crate::enums::InvaderDirection;
use crate::game::Game;
use crate::geometry::displacement;
use crate::geometry::max_displacement;
use crate::geometry::shift;
use crate::geometry::shifted;
use crate::geometry::travel;
use crate::resources::InvaderSpeed;
use crate::timer::just_finished;
use crate::timer::lemma_repeating_fires;
use crate::timer::lemma_timer_stays_ok;
use crate::timer::just_fired;
use crate::timer::tick;
use crate::timer::ticked;
use crate::timer::timer_state;
use vstd::prelude::*;

verus! {

/// Distance that the player keeps from a quarter of the window's width, in
/// sub-units.
pub const PLAYER_MARGIN: i64 = 50_000_000_000;

/// Distance from the centre at which an invader makes the formation turn,
/// in sub-units: half the playfield's width, less eleven columns of eighteen
/// and a half units.
pub const EDGE_THRESHOLD: i64 = 116_500_000_000;

/// Height that the formation loses when it turns, in sub-units.
pub const ROW_DROP: i64 = 8_000_000_000;

/// Leftmost position of a player in a window of the given width.
pub open spec fn left_limit(window_width: int) -> int {
    -(window_width / 4) + PLAYER_MARGIN
}

/// Rightmost position of a player in a window of the given width.
pub open spec fn right_limit(window_width: int) -> int {
    window_width / 4 - PLAYER_MARGIN
}

/// The value nearest to `x` from `low` to `high`.
pub open spec fn clamped(x: int, low: int, high: int) -> int {
    if x < low {
        low
    } else if x > high {
        high
    } else {
        x
    }
}

/// Where the keys take a player at `x` in a tick in which it can cover
/// `reach` sub-units. With the left key held it goes left, but not past the
/// left limit; then, with the right key held, it goes right, but not past
/// the right limit.
pub open spec fn stepped_x(x: int, reach: int, left: bool, right: bool, window_width: int) -> int {
    let after_left = if left {
        if shifted(x, -reach) < left_limit(window_width) {
            left_limit(window_width)
        } else {
            shifted(x, -reach)
        }
    } else {
        x
    };
    if right {
        if shifted(after_left, reach) > right_limit(window_width) {
            right_limit(window_width)
        } else {
            shifted(after_left, reach)
        }
    } else {
        after_left
    }
}

/// Where a player at `x` stands after a movement tick: where the keys take
/// it, brought back within the limits of the window as it is now. A window
/// too narrow to leave room between the limits clamps only in the direction
/// of a held key.
pub open spec fn moved_x(x: int, reach: int, left: bool, right: bool, window_width: int) -> int {
    let stepped = stepped_x(x, reach, left, right, window_width);
    if left_limit(window_width) <= right_limit(window_width) {
        clamped(stepped, left_limit(window_width), right_limit(window_width))
    } else {
        stepped
    }
}

/// A player after a movement tick.
pub open spec fn moved_player(
    p: Player,
    left: bool,
    right: bool,
    window_width: u64,
    delta_nanos: u64,
) -> Player {
    Player {
        x: moved_x(
            p.x as int,
            displacement(p.speed as int, delta_nanos as int),
            left,
            right,
            window_width as int,
        ) as i64,
        ..p
    }
}

/// What a movement tick does to the players: each moves along x as the
/// held keys say, at its own speed, and ends within the limits of the
/// window. Nothing else changes.
pub open spec fn players_movement_post(
    pre: Game,
    post: Game,
    window_width: u64,
    left: bool,
    right: bool,
    delta_nanos: u64,
) -> bool {
    &&& post.players@.len() == pre.players@.len()
    &&& forall|i: int|
        0 <= i < pre.players@.len() ==> #[trigger] post.players@[i] == moved_player(
            pre.players@[i],
            left,
            right,
            window_width,
            delta_nanos,
        )
    &&& post == (Game { players: post.players, ..pre })
}

/// Moves the players for one tick, as [`players_movement_post`] says.
pub fn players_movement(
    game: &mut Game,
    window_width: u64,
    left: bool,
    right: bool,
    delta_nanos: u64,
)
    ensures
        players_movement_post(*old(game), *final(game), window_width, left, right, delta_nanos),
{
    let low: i64 = -((window_width / 4) as i64) + PLAYER_MARGIN;
    let high: i64 = (window_width / 4) as i64 - PLAYER_MARGIN;
    let mut i: usize = 0;
    while i < game.players.len()
        invariant
            i <= game.players@.len(),
            game.players@.len() == old(game).players@.len(),
            low == left_limit(window_width as int),
            high == right_limit(window_width as int),
            forall|k: int|
                0 <= k < i ==> #[trigger] game.players@[k] == moved_player(
                    old(game).players@[k],
                    left,
                    right,
                    window_width,
                    delta_nanos,
                ),
            forall|k: int|
                i <= k < game.players@.len() ==> #[trigger] game.players@[k] == old(game).players@[k],
            *game == (Game { players: game.players, ..*old(game) }),
        decreases game.players@.len() - i,
    {
        let p = game.players[i];
        let reach = travel(p.speed as i64, delta_nanos);
        let mut x = p.x;
        if left {
            x = shift(x, -reach);
            if x < low {
                x = low;
            }
        }
        if right {
            x = shift(x, reach);
            if x > high {
                x = high;
            }
        }
        if low <= high {
            if x < low {
                x = low;
            } else if x > high {
                x = high;
            }
        }
        game.players.set(
            i,
            Player {
                speed: p.speed,
                lives: p.lives,
                score: p.score,
                id: p.id,
                is_hit: p.is_hit,
                x,
                y: p.y,
                texture: p.texture,
            },
        );
        i += 1;
    }
}

/// After a movement tick a player stands within the limits of the window,
/// wherever it stood before and whatever keys are held, as long as the
/// window leaves room between the limits. A player that stood within the
/// limits is exactly where the keys took it.
pub proof fn lemma_player_stays_within_limits(
    x: int,
    reach: int,
    left: bool,
    right: bool,
    window_width: int,
)
    requires
        left_limit(window_width) <= right_limit(window_width),
    ensures
        left_limit(window_width) <= moved_x(x, reach, left, right, window_width) <= right_limit(
            window_width,
        ),
        i64::MIN <= x <= i64::MAX && 0 <= reach && 0 <= window_width <= u64::MAX && left_limit(
            window_width,
        ) <= x <= right_limit(window_width) ==> moved_x(x, reach, left, right, window_width)
            == stepped_x(x, reach, left, right, window_width),
{
}

/// After a movement tick every player stands within the limits of the
/// window as it is in that tick, wherever the players stood before and
/// whatever keys are held, as long as the window leaves room between the
/// limits, which a window of at least two hundred units does.
pub proof fn lemma_players_end_within_limits(
    pre: Game,
    post: Game,
    window_width: u64,
    left: bool,
    right: bool,
    delta_nanos: u64,
)
    requires
        players_movement_post(pre, post, window_width, left, right, delta_nanos),
        left_limit(window_width as int) <= right_limit(window_width as int),
    ensures
        forall|i: int|
            0 <= i < post.players@.len() ==> left_limit(window_width as int) <= (
            #[trigger] post.players@[i]).x <= right_limit(window_width as int),
        window_width >= 200_000_000_000 ==> left_limit(window_width as int) <= right_limit(
            window_width as int,
        ),
{
    assert forall|i: int| 0 <= i < post.players@.len() implies left_limit(window_width as int) <= (
    #[trigger] post.players@[i]).x <= right_limit(window_width as int) by {
        let p = pre.players@[i];
        lemma_player_stays_within_limits(
            p.x as int,
            displacement(p.speed as int, delta_nanos as int),
            left,
            right,
            window_width as int,
        );
        assert(post.players@[i] == moved_player(p, left, right, window_width, delta_nanos));
    }
}

/// A bullet after `delta_nanos` nanoseconds of flight.
pub open spec fn flown(b: Bullet, delta_nanos: u64) -> Bullet {
    Bullet {
        x: shifted(b.x as int, displacement(b.velocity.x as int, delta_nanos as int)) as i64,
        y: shifted(b.y as int, displacement(b.velocity.y as int, delta_nanos as int)) as i64,
        ..b
    }
}

/// Computes [`flown`].
pub fn fly(b: Bullet, delta_nanos: u64) -> (r: Bullet)
    ensures
        r == flown(b, delta_nanos),
{
    Bullet {
        velocity: b.velocity,
        x: shift(b.x, travel(b.velocity.x as i64, delta_nanos)),
        y: shift(b.y, travel(b.velocity.y as i64, delta_nanos)),
    }
}

/// What a movement tick does to the bullets: each moves along its
/// velocity, whatever it may touch on the way. Nothing else changes.
pub open spec fn bullets_movement_post(pre: Game, post: Game, delta_nanos: u64) -> bool {
    &&& post.player_bullets@.len() == pre.player_bullets@.len()
    &&& post.invader_bullets@.len() == pre.invader_bullets@.len()
    &&& forall|i: int|
        0 <= i < pre.player_bullets@.len() ==> #[trigger] post.player_bullets@[i]
            == (PlayerBullet {
            bullet: flown(pre.player_bullets@[i].bullet, delta_nanos),
            ..pre.player_bullets@[i]
        })
    &&& forall|i: int|
        0 <= i < pre.invader_bullets@.len() ==> #[trigger] post.invader_bullets@[i]
            == (InvaderBullet {
            bullet: flown(pre.invader_bullets@[i].bullet, delta_nanos),
            ..pre.invader_bullets@[i]
        })
    &&& post == (Game {
        player_bullets: post.player_bullets,
        invader_bullets: post.invader_bullets,
        ..pre
    })
}

/// Moves the bullets for one tick, as [`bullets_movement_post`] says.
pub fn bullets_movement(game: &mut Game, delta_nanos: u64)
    ensures
        bullets_movement_post(*old(game), *final(game), delta_nanos),
{
    let mut i: usize = 0;
    while i < game.player_bullets.len()
        invariant
            i <= game.player_bullets@.len(),
            game.player_bullets@.len() == old(game).player_bullets@.len(),
            forall|k: int|
                0 <= k < i ==> #[trigger] game.player_bullets@[k] == (PlayerBullet {
                    bullet: flown(old(game).player_bullets@[k].bullet, delta_nanos),
                    ..old(game).player_bullets@[k]
                }),
            forall|k: int|
                i <= k < game.player_bullets@.len() ==> #[trigger] game.player_bullets@[k] == old(game).player_bullets@[k],
            *game == (Game { player_bullets: game.player_bullets, ..*old(game) }),
        decreases game.player_bullets@.len() - i,
    {
        let b = game.player_bullets[i];
        game.player_bullets.set(
            i,
            PlayerBullet { player_id: b.player_id, bullet: fly(b.bullet, delta_nanos) },
        );
        i += 1;
    }
    let mut i: usize = 0;
    while i < game.invader_bullets.len()
        invariant
            i <= game.invader_bullets@.len(),
            game.invader_bullets@.len() == old(game).invader_bullets@.len(),
            forall|k: int|
                0 <= k < i ==> #[trigger] game.invader_bullets@[k] == (InvaderBullet {
                    bullet: flown(old(game).invader_bullets@[k].bullet, delta_nanos),
                    ..old(game).invader_bullets@[k]
                }),
            forall|k: int|
                i <= k < game.invader_bullets@.len() ==> #[trigger] game.invader_bullets@[k]
                    == old(game).invader_bullets@[k],
            game.player_bullets@.len() == old(game).player_bullets@.len(),
            forall|k: int|
                0 <= k < game.player_bullets@.len() ==> #[trigger] game.player_bullets@[k]
                    == (PlayerBullet {
                    bullet: flown(old(game).player_bullets@[k].bullet, delta_nanos),
                    ..old(game).player_bullets@[k]
                }),
            *game == (Game {
                player_bullets: game.player_bullets,
                invader_bullets: game.invader_bullets,
                ..*old(game)
            }),
        decreases game.invader_bullets@.len() - i,
    {
        let b = game.invader_bullets[i];
        game.invader_bullets.set(
            i,
            InvaderBullet { bullet_type: b.bullet_type, bullet: fly(b.bullet, delta_nanos) },
        );
        i += 1;
    }
}

/// The step that the formation takes along x in a tick of `delta_nanos`
/// nanoseconds, in sub-units: to the right it is positive.
pub open spec fn step_delta(
    direction: InvaderDirection,
    speed: InvaderSpeed,
    delta_nanos: u64,
) -> int {
    direction.sign() * displacement(speed.0 as int, delta_nanos as int)
}

/// Whether a position along x is at the edge threshold or beyond it, on
/// either side.
pub open spec fn beyond_edge(x: int) -> bool {
    x >= EDGE_THRESHOLD || x <= -EDGE_THRESHOLD
}

/// Whether the step `delta` brings any invader to the edge.
pub open spec fn reaches_edge(invaders: Seq<Invader>, delta: int) -> bool {
    exists|i: int| 0 <= i < invaders.len() && beyond_edge(#[trigger] shifted(invaders[i].x as int, delta))
}

/// An invader after a step of the formation. Where the formation turns, the
/// step along x is applied and taken back, and the invader drops a row.
pub open spec fn marched_invader(v: Invader, delta: int, turn: bool) -> Invader {
    if turn {
        Invader {
            x: shifted(shifted(v.x as int, delta), -delta) as i64,
            y: shifted(v.y as int, -ROW_DROP) as i64,
            ..v
        }
    } else {
        Invader { x: shifted(v.x as int, delta) as i64, ..v }
    }
}

/// What a step of the formation does: the timer advances, and if that ends
/// a period of it, every invader takes the step, the whole formation turning
/// and dropping a row if the step brings any one of them to the edge.
/// Nothing else changes.
pub open spec fn invaders_movement_post(pre: Game, post: Game, delta_nanos: u64) -> bool {
    let timer = ticked(timer_state(pre.invader_timer.0), delta_nanos as nat);
    let delta = step_delta(pre.direction, pre.speed, delta_nanos);
    let turn = just_fired(timer) && reaches_edge(pre.invaders@, delta);
    &&& timer_state(post.invader_timer.0) == timer
    &&& post.direction == if turn {
        pre.direction.reversed()
    } else {
        pre.direction
    }
    &&& post.invaders@.len() == pre.invaders@.len()
    &&& forall|i: int|
        0 <= i < pre.invaders@.len() ==> #[trigger] post.invaders@[i] == if just_fired(timer) {
            marched_invader(pre.invaders@[i], delta, turn)
        } else {
            pre.invaders@[i]
        }
    &&& post == (Game {
        invader_timer: post.invader_timer,
        direction: post.direction,
        invaders: post.invaders,
        ..pre
    })
}

/// Drives the formation for one tick, as [`invaders_movement_post`] says.
pub fn invaders_movement(game: &mut Game, delta_nanos: u64)
    requires
        old(game).wf(),
    ensures
        invaders_movement_post(*old(game), *final(game), delta_nanos),
        final(game).wf(),
{
    proof {
        lemma_timer_stays_ok(timer_state(game.invader_timer.0), delta_nanos as nat);
    }
    tick(&mut game.invader_timer.0, delta_nanos);
    let ghost ticked_game = *game;
    if just_finished(&game.invader_timer.0) {
        let reach = travel(game.speed.0 as i64, delta_nanos);
        let delta: i128 = match game.direction {
            InvaderDirection::Left => -reach,
            InvaderDirection::Right => reach,
        };
        assert(delta == step_delta(old(game).direction, old(game).speed, delta_nanos)) by {
            assert(-1 * reach == -reach);
            assert(1 * reach == reach);
        }
        let mut change_direction = false;
        let mut i: usize = 0;
        while i < game.invaders.len()
            invariant
                i <= game.invaders@.len(),
                game.invaders@.len() == old(game).invaders@.len(),
                -max_displacement() <= delta <= max_displacement(),
                forall|k: int|
                    0 <= k < i ==> #[trigger] game.invaders@[k] == marched_invader(
                        old(game).invaders@[k],
                        delta as int,
                        false,
                    ),
                forall|k: int|
                    i <= k < game.invaders@.len() ==> #[trigger] game.invaders@[k] == old(game).invaders@[k],
                change_direction == reaches_edge(old(game).invaders@.take(i as int), delta as int),
                *game == (Game { invaders: game.invaders, ..ticked_game }),
            decreases game.invaders@.len() - i,
        {
            let v = game.invaders[i];
            let x = shift(v.x, delta);
            if x >= EDGE_THRESHOLD || x <= -EDGE_THRESHOLD {
                change_direction = true;
            }
            game.invaders.set(i, Invader { x, y: v.y, texture: v.texture, shooter: v.shooter });
            proof {
                let s = old(game).invaders@;
                let a = s.take(i as int);
                let b = s.take(i as int + 1);
                assert(b[i as int] == s[i as int]);
                assert forall|k: int| 0 <= k < a.len() implies a[k] == b[k] by {}
                if reaches_edge(a, delta as int) {
                    let w = choose|w: int|
                        0 <= w < a.len() && beyond_edge(#[trigger] shifted(a[w].x as int, delta as int));
                    assert(beyond_edge(shifted(b[w].x as int, delta as int)));
                }
                if beyond_edge(x as int) {
                    assert(beyond_edge(shifted(b[i as int].x as int, delta as int)));
                }
                if reaches_edge(b, delta as int) {
                    let w = choose|w: int|
                        0 <= w < b.len() && beyond_edge(#[trigger] shifted(b[w].x as int, delta as int));
                    if w < i {
                        assert(beyond_edge(shifted(a[w].x as int, delta as int)));
                    }
                }
            }
            i += 1;
        }
        assert(old(game).invaders@.take(i as int) =~= old(game).invaders@);
        assert(change_direction == reaches_edge(old(game).invaders@, delta as int));
        if change_direction {
            game.direction = match game.direction {
                InvaderDirection::Left => InvaderDirection::Right,
                InvaderDirection::Right => InvaderDirection::Left,
            };
            let ghost turned_game = *game;
            let mut i: usize = 0;
            while i < game.invaders.len()
                invariant
                    i <= game.invaders@.len(),
                    game.invaders@.len() == old(game).invaders@.len(),
                    -max_displacement() <= delta <= max_displacement(),
                    forall|k: int|
                        0 <= k < i ==> #[trigger] game.invaders@[k] == marched_invader(
                            old(game).invaders@[k],
                            delta as int,
                            true,
                        ),
                    forall|k: int|
                        i <= k < game.invaders@.len() ==> #[trigger] game.invaders@[k]
                            == marched_invader(old(game).invaders@[k], delta as int, false),
                    *game == (Game { invaders: game.invaders, ..turned_game }),
                decreases game.invaders@.len() - i,
            {
                let v = game.invaders[i];
                game.invaders.set(
                    i,
                    Invader {
                        x: shift(v.x, -delta),
                        y: shift(v.y, -(ROW_DROP as i128)),
                        texture: v.texture,
                        shooter: v.shooter,
                    },
                );
                i += 1;
            }
        }
    }
}

/// The formation marches in steps: it stands still in every tick in which
/// its timer does not reach the end of a period, and takes one step in every
/// tick in which it does, however many periods end in that tick. This holds
/// of a running repeating timer with a period that is not zero, in a tick in which
/// fewer than 2^32 periods end.
pub proof fn lemma_formation_steps_when_due(pre: Game, post: Game, delta_nanos: u64)
    requires
        invaders_movement_post(pre, post, delta_nanos),
        !timer_state(pre.invader_timer.0).paused,
        timer_state(pre.invader_timer.0).repeating,
        timer_state(pre.invader_timer.0).duration > 0,
        (timer_state(pre.invader_timer.0).elapsed + delta_nanos as nat) / timer_state(
            pre.invader_timer.0,
        ).duration < 0x1_0000_0000,
    ensures
        ({
            let timer = timer_state(pre.invader_timer.0);
            let delta = step_delta(pre.direction, pre.speed, delta_nanos);
            let turn = reaches_edge(pre.invaders@, delta);
            if timer.elapsed + delta_nanos < timer.duration {
                post.invaders@ == pre.invaders@ && post.direction == pre.direction
            } else {
                &&& post.direction == if turn {
                    pre.direction.reversed()
                } else {
                    pre.direction
                }
                &&& forall|i: int|
                    0 <= i < pre.invaders@.len() ==> #[trigger] post.invaders@[i]
                        == marched_invader(pre.invaders@[i], delta, turn)
            }
        }),
{
    lemma_repeating_fires(timer_state(pre.invader_timer.0), delta_nanos as nat);
    let timer = timer_state(pre.invader_timer.0);
    if timer.elapsed + delta_nanos < timer.duration {
        assert(post.invaders@ =~= pre.invaders@);
    }
}

/// A step that brings any invader to the edge turns the whole formation as
/// one: the direction is reversed once, and every invader drops one row and
/// is back where it stood along x, each as far as the coordinates that a
/// position can hold allow. Nothing else about an invader changes.
pub proof fn lemma_formation_turns_as_one(pre: Game, post: Game, delta_nanos: u64)
    requires
        invaders_movement_post(pre, post, delta_nanos),
        just_fired(ticked(timer_state(pre.invader_timer.0), delta_nanos as nat)),
        reaches_edge(pre.invaders@, step_delta(pre.direction, pre.speed, delta_nanos)),
    ensures
        post.direction == pre.direction.reversed(),
        post.direction != pre.direction,
        post.invaders@.len() == pre.invaders@.len(),
        forall|i: int|
            0 <= i < pre.invaders@.len() ==> {
                let before = pre.invaders@[i];
                let after = #[trigger] post.invaders@[i];
                &&& after.texture == before.texture
                &&& after.shooter == before.shooter
                &&& after.y == shifted(before.y as int, -ROW_DROP)
                &&& after.y == before.y - ROW_DROP <==> before.y - ROW_DROP >= i64::MIN
                &&& i64::MIN <= before.x + step_delta(pre.direction, pre.speed, delta_nanos)
                    <= i64::MAX ==> after.x == before.x
            },
{
    assert forall|i: int| 0 <= i < pre.invaders@.len() implies {
        let before = pre.invaders@[i];
        let after = #[trigger] post.invaders@[i];
        &&& after.texture == before.texture
        &&& after.shooter == before.shooter
        &&& after.y == shifted(before.y as int, -ROW_DROP)
        &&& after.y == before.y - ROW_DROP <==> before.y - ROW_DROP >= i64::MIN
        &&& i64::MIN <= before.x + step_delta(pre.direction, pre.speed, delta_nanos) <= i64::MAX
            ==> after.x == before.x
    } by {
        lemma_formation_turn(
            pre.invaders@,
            step_delta(pre.direction, pre.speed, delta_nanos),
            i,
        );
    }
}

/// The formation turns exactly when the step brings an invader to the edge.
/// A turn drops every invader by one row, once, however many invaders are at
/// the edge, and takes the step along x back. The drop is exactly one row
/// unless the invader stands within a row of the lowest height that a
/// position can hold, and only then; the invader is back where it stood
/// along x unless the step had carried it beyond the coordinates that a
/// position can hold. Without a turn every invader takes the step and keeps
/// its height.
pub proof fn lemma_formation_turn(invaders: Seq<Invader>, delta: int, i: int)
    requires
        0 <= i < invaders.len(),
    ensures
        ({
            let turn = reaches_edge(invaders, delta);
            let after = marched_invader(invaders[i], delta, turn);
            &&& turn <==> exists|k: int|
                0 <= k < invaders.len() && beyond_edge(#[trigger] shifted(invaders[k].x as int, delta))
            &&& turn ==> after.y == shifted(invaders[i].y as int, -ROW_DROP)
            &&& turn ==> (after.y == invaders[i].y - ROW_DROP <==> invaders[i].y - ROW_DROP
                >= i64::MIN)
            &&& turn && i64::MIN <= invaders[i].x + delta <= i64::MAX ==> after.x == invaders[i].x
            &&& !turn ==> after.x == shifted(invaders[i].x as int, delta) && after.y == invaders[i].y
            &&& !turn ==> !beyond_edge(after.x as int)
        }),
{
    let turn = reaches_edge(invaders, delta);
    if !turn {
        assert(!beyond_edge(shifted(invaders[i].x as int, delta)));
    }
}

} // verus!
