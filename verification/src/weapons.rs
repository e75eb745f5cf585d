//! Weapons: the player's shot, behind a cooldown, and the invaders' fire,
//! drawn at random.

use crate::components::Bullet;
use crate::components::Invader;
use crate::components::InvaderBullet;
use crate::components::InvaderBulletProbability;
use crate::components::Player;
use crate::components::PlayerBullet;
use crate::enums::InvaderBulletType;
use crate::game::Game;
use crate::geometry::Vec2;
use crate::random::random_below;
use crate::timer::finished;
use crate::timer::lemma_one_shot_finishes;
use crate::timer::lemma_timer_stays_ok;
use crate::timer::reset;
use crate::timer::restarted;
use crate::timer::tick;
use crate::timer::ticked;
use crate::timer::timer_state;
use vstd::prelude::*;

verus! {

/// The whole of a probability, which is counted in millionths.
pub const PROBABILITY_SCALE: u32 = 1_000_000;

/// Chance that a shooter fires in a round, in millionths.
pub const INVADER_SHOOT_PROBABILITY: u32 = 100_000;

/// Speed of every bullet along y, in world units per second.
pub const BULLET_SPEED: i32 = 100;

/// The table from which an invader's shot is drawn: three bullets to one
/// bolt.
pub open spec fn invader_bullet_table() -> Seq<InvaderBulletProbability> {
    seq![
        InvaderBulletProbability { bullet_type: InvaderBulletType::Bullet, probability: 750_000 },
        InvaderBulletProbability { bullet_type: InvaderBulletType::Bolt, probability: 250_000 },
    ]
}

/// Builds [`invader_bullet_table`].
pub fn invader_bullet_probabilities() -> (table: Vec<InvaderBulletProbability>)
    ensures
        table@ == invader_bullet_table(),
{
    let mut table: Vec<InvaderBulletProbability> = Vec::new();
    table.push(
        InvaderBulletProbability { bullet_type: InvaderBulletType::Bullet, probability: 750_000 },
    );
    table.push(
        InvaderBulletProbability { bullet_type: InvaderBulletType::Bolt, probability: 250_000 },
    );
    table
}

/// The probability mass of the first `n` rows of a table, in millionths.
pub open spec fn mass(table: Seq<InvaderBulletProbability>, n: int) -> int
    decreases n,
{
    if n <= 0 {
        0
    } else {
        mass(table, n - 1) + table[n - 1].probability
    }
}

/// The type that the draw `pick` selects from the rows of `table` from
/// `from` on, when the rows before them hold the mass `below`: that of the
/// first row at which the accumulated mass exceeds the draw.
pub open spec fn picked_from(
    table: Seq<InvaderBulletProbability>,
    pick: int,
    from: int,
    below: int,
) -> Option<InvaderBulletType>
    decreases table.len() - from,
{
    if from < 0 || from >= table.len() {
        None
    } else if pick < below + table[from].probability {
        Some(table[from].bullet_type)
    } else {
        picked_from(table, pick, from + 1, below + table[from].probability)
    }
}

/// The type that the draw `pick` selects from `table`, if any.
pub open spec fn picked(table: Seq<InvaderBulletProbability>, pick: int) -> Option<
    InvaderBulletType,
> {
    picked_from(table, pick, 0, 0)
}

/// Selects a type from `table` by the draw `pick`: the rows are walked in
/// order and the first whose accumulated mass exceeds the draw wins. A draw
/// that no row exceeds selects nothing.
pub fn select_bullet_type(table: &Vec<InvaderBulletProbability>, pick: u32) -> (r: Option<
    InvaderBulletType,
>)
    ensures
        r == picked(table@, pick as int),
{
    let mut cumulative: u128 = 0;
    let mut i: usize = 0;
    while i < table.len()
        invariant
            i <= table@.len(),
            cumulative <= i * 0xffff_ffff,
            picked(table@, pick as int) == picked_from(
                table@,
                pick as int,
                i as int,
                cumulative as int,
            ),
        decreases table@.len() - i,
    {
        cumulative = cumulative + table[i].probability as u128;
        if (pick as u128) < cumulative {
            return Some(table[i].bullet_type);
        }
        i += 1;
    }
    None
}

/// A draw selects the row whose share of the mass it falls into: the `j`-th
/// row is selected by exactly the draws from the mass of the rows before it
/// up to, and not including, the mass of the rows up to it. A draw at or
/// beyond the whole mass selects nothing.
pub proof fn lemma_picked_by_mass(table: Seq<InvaderBulletProbability>, pick: int, j: int)
    requires
        0 <= pick,
        0 <= j <= table.len(),
        mass(table, j) <= pick,
        j < table.len() ==> pick < mass(table, j + 1),
    ensures
        picked(table, pick) == if j < table.len() {
            Some(table[j].bullet_type)
        } else {
            None
        },
{
    lemma_picked_from(table, pick, 0, j);
}

/// The walk from the row `from` on, with the mass of the rows before it
/// accumulated, selects the row into whose share the draw falls.
proof fn lemma_picked_from(table: Seq<InvaderBulletProbability>, pick: int, from: int, j: int)
    requires
        0 <= from <= j <= table.len(),
        mass(table, j) <= pick,
        j < table.len() ==> pick < mass(table, j + 1),
    ensures
        picked_from(table, pick, from, mass(table, from)) == if j < table.len() {
            Some(table[j].bullet_type)
        } else {
            None
        },
    decreases j - from,
{
    if from < j {
        lemma_mass_grows(table, from + 1, j);
        lemma_picked_from(table, pick, from + 1, j);
    }
}

/// The mass of more rows is no less.
proof fn lemma_mass_grows(table: Seq<InvaderBulletProbability>, i: int, j: int)
    requires
        0 <= i <= j,
    ensures
        mass(table, i) <= mass(table, j),
    decreases j - i,
{
    if i < j {
        lemma_mass_grows(table, i, j - 1);
    }
}

/// Of the million draws that can come, the first three quarters select a
/// `Bullet` from the invaders' table and the last quarter a `Bolt`; none
/// selects nothing.
pub proof fn lemma_invader_bullet_shares(pick: int)
    requires
        0 <= pick < PROBABILITY_SCALE,
    ensures
        picked(invader_bullet_table(), pick) == if pick < 750_000 {
            Some(InvaderBulletType::Bullet)
        } else {
            Some(InvaderBulletType::Bolt)
        },
{
    let table = invader_bullet_table();
    assert(mass(table, 0) == 0);
    assert(mass(table, 1) == 750_000);
    assert(mass(table, 2) == 1_000_000);
    if pick < 750_000 {
        lemma_picked_by_mass(table, pick, 0);
    } else {
        lemma_picked_by_mass(table, pick, 1);
    }
}

/// The two draws behind one shooter's decision, each in millionths.
#[derive(Clone, Copy, Debug, PartialEq, Eq)]
pub struct ShotRoll {
    /// Decides whether the shooter fires at all.
    pub chance: u32,
    /// Selects what it fires.
    pub pick: u32,
}

/// What a shooter fires on the given draws, if anything: it fires only if
/// the chance draw is at most the shoot probability, and then what the pick
/// selects from the table.
pub open spec fn decided(table: Seq<InvaderBulletProbability>, roll: ShotRoll) -> Option<
    InvaderBulletType,
> {
    if roll.chance > INVADER_SHOOT_PROBABILITY {
        None
    } else {
        picked(table, roll.pick as int)
    }
}

/// Computes [`decided`].
pub fn decide_shot(table: &Vec<InvaderBulletProbability>, roll: ShotRoll) -> (r: Option<
    InvaderBulletType,
>)
    ensures
        r == decided(table@, roll),
{
    if roll.chance > INVADER_SHOOT_PROBABILITY {
        None
    } else {
        select_bullet_type(table, roll.pick)
    }
}

/// The bullet of the given type that an invader drops from where it stands.
pub open spec fn shot(v: Invader, kind: InvaderBulletType) -> InvaderBullet {
    InvaderBullet {
        bullet_type: kind,
        bullet: Bullet { velocity: Vec2 { x: 0, y: (-BULLET_SPEED) as i32 }, x: v.x, y: v.y },
    }
}

/// Number of shooters among the first `n` invaders.
pub open spec fn shooter_count(invaders: Seq<Invader>, n: int) -> int
    decreases n,
{
    if n <= 0 {
        0
    } else {
        shooter_count(invaders, n - 1) + if invaders[n - 1].shooter is Some {
            1int
        } else {
            0int
        }
    }
}

/// The bullets that the first `n` invaders fire in a round. The shooters
/// take the draws in order, one each; a shooter for which no draw is left
/// holds its fire.
pub open spec fn volley(
    invaders: Seq<Invader>,
    table: Seq<InvaderBulletProbability>,
    rolls: Seq<ShotRoll>,
    n: int,
) -> Seq<InvaderBullet>
    decreases n,
{
    if n <= 0 {
        Seq::empty()
    } else {
        let before = volley(invaders, table, rolls, n - 1);
        let v = invaders[n - 1];
        let k = shooter_count(invaders, n - 1);
        if v.shooter is Some && k < rolls.len() {
            match decided(table, rolls[k]) {
                Some(kind) => before.push(shot(v, kind)),
                None => before,
            }
        } else {
            before
        }
    }
}

/// Counts the invaders that can fire.
pub fn count_shooters(invaders: &Vec<Invader>) -> (n: usize)
    ensures
        n == shooter_count(invaders@, invaders@.len() as int),
{
    let mut n: usize = 0;
    let mut i: usize = 0;
    while i < invaders.len()
        invariant
            i <= invaders@.len(),
            n <= i,
            n == shooter_count(invaders@, i as int),
        decreases invaders@.len() - i,
    {
        if invaders[i].shooter.is_some() {
            n += 1;
        }
        i += 1;
    }
    n
}

/// Fires one round on the given draws: the bullets of [`volley`] join the
/// invaders' bullets, after those in flight. Nothing else changes.
pub fn fire_volley(game: &mut Game, rolls: &Vec<ShotRoll>)
    ensures
        final(game).invader_bullets@ == old(game).invader_bullets@ + volley(
            old(game).invaders@,
            invader_bullet_table(),
            rolls@,
            old(game).invaders@.len() as int,
        ),
        *final(game) == (Game { invader_bullets: final(game).invader_bullets, ..*old(game) }),
{
    let table = invader_bullet_probabilities();
    let mut used: usize = 0;
    let mut i: usize = 0;
    while i < game.invaders.len()
        invariant
            i <= game.invaders@.len(),
            used <= i,
            used == shooter_count(game.invaders@, i as int),
            table@ == invader_bullet_table(),
            game.invader_bullets@ == old(game).invader_bullets@ + volley(
                game.invaders@,
                table@,
                rolls@,
                i as int,
            ),
            *game == (Game { invader_bullets: game.invader_bullets, ..*old(game) }),
        decreases game.invaders@.len() - i,
    {
        let v = game.invaders[i];
        if v.shooter.is_some() {
            if used < rolls.len() {
                match decide_shot(&table, rolls[used]) {
                    Some(kind) => {
                        game.invader_bullets.push(
                            InvaderBullet {
                                bullet_type: kind,
                                bullet: Bullet {
                                    velocity: Vec2 { x: 0, y: -BULLET_SPEED },
                                    x: v.x,
                                    y: v.y,
                                },
                            },
                        );
                    },
                    None => {},
                }
            }
            used += 1;
        }
        i += 1;
    }
}

/// Whether every draw of `rolls` lies within the scale of probabilities.
pub open spec fn rolls_in_scale(rolls: Seq<ShotRoll>) -> bool {
    forall|k: int|
        0 <= k < rolls.len() ==> (#[trigger] rolls[k]).chance < PROBABILITY_SCALE && rolls[k].pick
            < PROBABILITY_SCALE
}

/// Whether no pick was drawn where the chance holds the shooter's fire: the
/// pick is then zero.
pub open spec fn picks_only_where_due(rolls: Seq<ShotRoll>) -> bool {
    forall|k: int|
        0 <= k < rolls.len() && (#[trigger] rolls[k]).chance > INVADER_SHOOT_PROBABILITY
            ==> rolls[k].pick == 0
}

/// Draws for `n` shooters. For each the chance is drawn first, and the pick
/// only if the chance lets the shooter fire.
pub fn draw_rolls(n: usize) -> (rolls: Vec<ShotRoll>)
    ensures
        rolls@.len() == n,
        rolls_in_scale(rolls@),
        picks_only_where_due(rolls@),
{
    let mut rolls: Vec<ShotRoll> = Vec::new();
    let mut i: usize = 0;
    while i < n
        invariant
            i <= n,
            rolls@.len() == i,
            rolls_in_scale(rolls@),
            picks_only_where_due(rolls@),
        decreases n - i,
    {
        let chance = random_below(PROBABILITY_SCALE);
        let pick = if chance > INVADER_SHOOT_PROBABILITY {
            0
        } else {
            random_below(PROBABILITY_SCALE)
        };
        rolls.push(ShotRoll { chance, pick });
        i += 1;
    }
    rolls
}

/// What a round of invader fire does: the timer advances, and if it is then
/// finished, each shooter decides on draws of its own whether and what it
/// fires. Whatever the draws, the new bullets are the volley of some draws
/// within the scale, one pair for each shooter. Nothing else changes.
pub open spec fn invaders_shooting_post(pre: Game, post: Game, delta_nanos: u64) -> bool {
    let timer = ticked(timer_state(pre.invader_shoot_timer.0), delta_nanos as nat);
    &&& timer_state(post.invader_shoot_timer.0) == timer
    &&& if timer.finished {
        exists|rolls: Seq<ShotRoll>|
            {
                &&& rolls.len() == shooter_count(pre.invaders@, pre.invaders@.len() as int)
                &&& rolls_in_scale(rolls)
                &&& post.invader_bullets@ == pre.invader_bullets@ + #[trigger] volley(
                    pre.invaders@,
                    invader_bullet_table(),
                    rolls,
                    pre.invaders@.len() as int,
                )
            }
    } else {
        post.invader_bullets@ == pre.invader_bullets@
    }
    &&& post == (Game {
        invader_shoot_timer: post.invader_shoot_timer,
        invader_bullets: post.invader_bullets,
        ..pre
    })
}

/// Runs the invaders' fire for one tick, as [`invaders_shooting_post`] says.
pub fn invaders_shooting(game: &mut Game, delta_nanos: u64)
    requires
        old(game).wf(),
    ensures
        invaders_shooting_post(*old(game), *final(game), delta_nanos),
        final(game).wf(),
{
    proof {
        lemma_timer_stays_ok(timer_state(game.invader_shoot_timer.0), delta_nanos as nat);
    }
    tick(&mut game.invader_shoot_timer.0, delta_nanos);
    if finished(&game.invader_shoot_timer.0) {
        let n = count_shooters(&game.invaders);
        let rolls = draw_rolls(n);
        fire_volley(game, &rolls);
    }
}

/// The bullet that a player fires from where it stands.
pub open spec fn player_shot(p: Player) -> PlayerBullet {
    PlayerBullet {
        player_id: p.id,
        bullet: Bullet { velocity: Vec2 { x: 0, y: BULLET_SPEED }, x: p.x, y: p.y },
    }
}

/// What the player's weapon does in a tick: the cooldown advances, and if
/// it is then over, the fire key was just pressed and there is a player, the
/// first player fires one bullet and the cooldown starts again. Nothing else
/// changes.
pub open spec fn spawn_player_bullets_post(
    pre: Game,
    post: Game,
    fire: bool,
    delta_nanos: u64,
) -> bool {
    let timer = ticked(timer_state(pre.player_shoot_timer.0), delta_nanos as nat);
    let fires = timer.finished && fire && pre.players@.len() > 0;
    &&& timer_state(post.player_shoot_timer.0) == if fires {
        restarted(timer)
    } else {
        timer
    }
    &&& post.player_bullets@ == if fires {
        pre.player_bullets@.push(player_shot(pre.players@[0]))
    } else {
        pre.player_bullets@
    }
    &&& post == (Game {
        player_shoot_timer: post.player_shoot_timer,
        player_bullets: post.player_bullets,
        ..pre
    })
}

/// Runs the player's weapon for one tick, as [`spawn_player_bullets_post`]
/// says. `fire` tells whether the fire key went down in this tick.
pub fn spawn_player_bullets(game: &mut Game, fire: bool, delta_nanos: u64)
    requires
        old(game).wf(),
    ensures
        spawn_player_bullets_post(*old(game), *final(game), fire, delta_nanos),
        final(game).wf(),
{
    proof {
        let s = timer_state(game.player_shoot_timer.0);
        lemma_timer_stays_ok(s, delta_nanos as nat);
        lemma_timer_stays_ok(ticked(s, delta_nanos as nat), 0);
    }
    tick(&mut game.player_shoot_timer.0, delta_nanos);
    if finished(&game.player_shoot_timer.0) {
        if fire {
            if game.players.len() > 0 {
                let p = game.players[0];
                game.player_bullets.push(
                    PlayerBullet {
                        player_id: p.id,
                        bullet: Bullet { velocity: Vec2 { x: 0, y: BULLET_SPEED }, x: p.x, y: p.y },
                    },
                );
                reset(&mut game.player_shoot_timer.0);
            }
        }
    }
}

/// The cooldown holds the player's fire: as long as the time accumulated
/// on the running one-shot cooldown timer, this tick included, stays short of its
/// duration, no bullet is fired, pressed or not. Once the cooldown is over,
/// a press fires exactly one bullet if there is a player, and the cooldown
/// starts from zero.
pub proof fn lemma_cooldown_holds_fire(pre: Game, post: Game, fire: bool, delta_nanos: u64)
    requires
        spawn_player_bullets_post(pre, post, fire, delta_nanos),
        !timer_state(pre.player_shoot_timer.0).paused,
        !timer_state(pre.player_shoot_timer.0).repeating,
        !timer_state(pre.player_shoot_timer.0).finished,
    ensures
        ({
            let timer = timer_state(pre.player_shoot_timer.0);
            if timer.elapsed + delta_nanos < timer.duration || !fire || pre.players@.len() == 0 {
                post.player_bullets@ == pre.player_bullets@
            } else {
                &&& post.player_bullets@ == pre.player_bullets@.push(player_shot(pre.players@[0]))
                &&& timer_state(post.player_shoot_timer.0).elapsed == 0
                &&& !timer_state(post.player_shoot_timer.0).finished
            }
        }),
{
    lemma_one_shot_finishes(timer_state(pre.player_shoot_timer.0), delta_nanos as nat);
}

} // verus!
