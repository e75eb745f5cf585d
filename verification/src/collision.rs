//! Collision and damage: which bullet touches what, and what it costs.
//!
//! The rules are stated once, as functions on the arena (the sequences of
//! segments, invaders and players, and the state of the game). The code that
//! changes the game is proved to do what they say.

use crate::components::all_sound;
use crate::components::Invader;
use crate::components::InvaderBullet;
use crate::components::Player;
use crate::components::PlayerBullet;
use crate::components::PlayerID;
use crate::components::ShieldPart;
use crate::enums::InvaderBulletType;
use crate::game::Game;
use crate::geometry::touch;
use crate::geometry::touches;
use crate::geometry::PairKind;
use crate::resources::GameState;
use crate::search::first_index;
use crate::search::lemma_first_index;
use vstd::prelude::*;

verus! {

/// Height above which a player's bullet has left the screen, in sub-units:
/// a quarter of the playfield's height, less twenty-five units.
pub const TOP_BOUND: i64 = 95_000_000_000;

/// Height below which an invader's bullet has left the screen, in sub-units:
/// as far below the centre as the top bound is above it.
pub const BOTTOM_BOUND: i64 = -95_000_000_000;

/// The segments that something at `(x, y)` touches.
pub open spec fn shield_touched(x: int, y: int, kind: PairKind) -> spec_fn(ShieldPart) -> bool {
    |s: ShieldPart| touches(x, y, s.x as int, s.y as int, kind)
}

/// The invaders that something at `(x, y)` touches.
pub open spec fn invader_touched(x: int, y: int, kind: PairKind) -> spec_fn(Invader) -> bool {
    |i: Invader| touches(x, y, i.x as int, i.y as int, kind)
}

/// The players that something at `(x, y)` hits: those it touches that have a
/// life left to lose.
pub open spec fn player_touched(x: int, y: int, kind: PairKind) -> spec_fn(Player) -> bool {
    |p: Player| p.lives > 0 && touches(x, y, p.x as int, p.y as int, kind)
}

/// The players that go by the identity `id`.
pub open spec fn player_named(id: PlayerID) -> spec_fn(Player) -> bool {
    |p: Player| p.id == id
}

/// What the collision rules read and change.
pub struct Arena {
    pub shields: Seq<ShieldPart>,
    pub invaders: Seq<Invader>,
    pub players: Seq<Player>,
    pub game_state: GameState,
}

impl Game {
    /// The part of the game that the collision rules read and change.
    pub open spec fn arena(&self) -> Arena {
        Arena {
            shields: self.shields@,
            invaders: self.invaders@,
            players: self.players@,
            game_state: self.game_state,
        }
    }
}

/// A segment after a hit.
pub open spec fn worn(s: ShieldPart) -> ShieldPart {
    ShieldPart { health: (s.health - 1) as u32, ..s }
}

/// The segments after the `j`-th was hit: it loses a point of health, and
/// leaves at once if that was its last.
pub open spec fn damage_shield(shields: Seq<ShieldPart>, j: int) -> Seq<ShieldPart> {
    if shields[j].health <= 1 {
        shields.remove(j)
    } else {
        shields.update(j, worn(shields[j]))
    }
}

/// A player after scoring a point. The score stops at the largest value it
/// can hold.
pub open spec fn scored(p: Player) -> Player {
    Player {
        score: if p.score < u32::MAX {
            (p.score + 1) as u32
        } else {
            p.score
        },
        ..p
    }
}

/// The players after a point went to `id`: the first player of that
/// identity scores; if there is none the point is lost.
pub open spec fn award_point(players: Seq<Player>, id: PlayerID) -> Seq<Player> {
    match first_index(players, player_named(id), 0) {
        Some(i) => players.update(i, scored(players[i])),
        None => players,
    }
}

/// A player after a hit. Only a player with a life left is ever hit.
pub open spec fn wounded(p: Player) -> Player {
    Player { lives: (p.lives - 1) as u32, is_hit: true, ..p }
}

/// The state that a hit on `p` leads to, from the state `before`: the game
/// is over if the hit took the player's last life, and stays over if it was
/// over already; else the player is out of play for a while.
pub open spec fn state_after_hit(p: Player, before: GameState) -> GameState {
    if wounded(p).lives == 0 || before == GameState::GameOver {
        GameState::GameOver
    } else {
        GameState::PlayerHit
    }
}

/// What becomes of the arena when a player's bullet is resolved, and
/// whether the bullet is gone.
///
/// The bullet wears the first segment that it touches. If it touches none,
/// it destroys the first invader that it touches, and its owner scores. If it
/// touches nothing, it goes on, unless it has left the screen at the top.
pub open spec fn resolve_player_bullet(a: Arena, b: PlayerBullet) -> (Arena, bool) {
    let x = b.bullet.x as int;
    let y = b.bullet.y as int;
    match first_index(a.shields, shield_touched(x, y, PairKind::PlayerBulletShield), 0) {
        Some(j) => (Arena { shields: damage_shield(a.shields, j), ..a }, true),
        None => match first_index(
            a.invaders,
            invader_touched(x, y, PairKind::PlayerBulletInvader),
            0,
        ) {
            Some(k) => (
                Arena {
                    invaders: a.invaders.remove(k),
                    players: award_point(a.players, b.player_id),
                    ..a
                },
                true,
            ),
            None => (a, y > TOP_BOUND),
        },
    }
}

/// What becomes of the arena when an invader's bullet is resolved, and
/// whether the bullet is gone.
///
/// A `Bullet` wears the first segment that it touches; a `Bolt` ignores the
/// segments. Whether or not it wore a segment, the bullet hits the first
/// player that it touches and that has a life left: the player loses a life,
/// and the game is over if that was the last, else the player is out of play
/// for a while. A bullet that touched a segment or a player is gone. One that
/// touched nothing goes on, unless it has left the screen at the bottom.
pub open spec fn resolve_invader_bullet(a: Arena, b: InvaderBullet) -> (Arena, bool) {
    let x = b.bullet.x as int;
    let y = b.bullet.y as int;
    let stopped = segment_stopping(a.shields, b);
    let worn_arena = match stopped {
        Some(j) => Arena { shields: damage_shield(a.shields, j), ..a },
        None => a,
    };
    match first_index(a.players, player_touched(x, y, PairKind::InvaderBulletPlayer), 0) {
        Some(i) => (
            Arena {
                players: a.players.update(i, wounded(a.players[i])),
                game_state: state_after_hit(a.players[i], a.game_state),
                ..worn_arena
            },
            true,
        ),
        None => (worn_arena, stopped is Some || y < BOTTOM_BOUND),
    }
}

/// The segment that an invader's bullet wears, if any: the first that a
/// `Bullet` touches, and none for a `Bolt`.
pub open spec fn segment_stopping(shields: Seq<ShieldPart>, b: InvaderBullet) -> Option<int> {
    if b.bullet_type == InvaderBulletType::Bullet {
        first_index(
            shields,
            shield_touched(b.bullet.x as int, b.bullet.y as int, PairKind::InvaderBulletShield),
            0,
        )
    } else {
        None
    }
}

/// The arena after the first `n` of the player's bullets were resolved in
/// turn, and those of them that go on.
pub open spec fn player_pass(a: Arena, bullets: Seq<PlayerBullet>, n: nat) -> (
    Arena,
    Seq<PlayerBullet>,
)
    decreases n,
{
    if n == 0 {
        (a, Seq::empty())
    } else {
        let before = player_pass(a, bullets, (n - 1) as nat);
        let step = resolve_player_bullet(before.0, bullets[n - 1]);
        (
            step.0,
            if step.1 {
                before.1
            } else {
                before.1.push(bullets[n - 1])
            },
        )
    }
}

/// The arena after the first `n` of the invaders' bullets were resolved in
/// turn, and those of them that go on.
pub open spec fn invader_pass(a: Arena, bullets: Seq<InvaderBullet>, n: nat) -> (
    Arena,
    Seq<InvaderBullet>,
)
    decreases n,
{
    if n == 0 {
        (a, Seq::empty())
    } else {
        let before = invader_pass(a, bullets, (n - 1) as nat);
        let step = resolve_invader_bullet(before.0, bullets[n - 1]);
        (
            step.0,
            if step.1 {
                before.1
            } else {
                before.1.push(bullets[n - 1])
            },
        )
    }
}

/// Finds the first segment that something at `(x, y)` touches.
pub fn find_shield(shields: &Vec<ShieldPart>, x: i64, y: i64, kind: PairKind) -> (r: Option<usize>)
    ensures
        first_index(shields@, shield_touched(x as int, y as int, kind), 0) == match r {
            Some(j) => Some(j as int),
            None => None,
        },
        r matches Some(j) ==> j < shields@.len(),
{
    let ghost p = shield_touched(x as int, y as int, kind);
    let mut i: usize = 0;
    while i < shields.len()
        invariant
            i <= shields@.len(),
            first_index(shields@, p, 0) == first_index(shields@, p, i as int),
            p == shield_touched(x as int, y as int, kind),
        decreases shields@.len() - i,
    {
        if touch(x, y, shields[i].x, shields[i].y, kind) {
            return Some(i);
        }
        i += 1;
    }
    None
}

/// Finds the first invader that something at `(x, y)` touches.
pub fn find_invader(invaders: &Vec<Invader>, x: i64, y: i64, kind: PairKind) -> (r: Option<usize>)
    ensures
        first_index(invaders@, invader_touched(x as int, y as int, kind), 0) == match r {
            Some(j) => Some(j as int),
            None => None,
        },
        r matches Some(j) ==> j < invaders@.len(),
{
    let ghost p = invader_touched(x as int, y as int, kind);
    let mut i: usize = 0;
    while i < invaders.len()
        invariant
            i <= invaders@.len(),
            first_index(invaders@, p, 0) == first_index(invaders@, p, i as int),
            p == invader_touched(x as int, y as int, kind),
        decreases invaders@.len() - i,
    {
        if touch(x, y, invaders[i].x, invaders[i].y, kind) {
            return Some(i);
        }
        i += 1;
    }
    None
}

/// Finds the first player with a life left that something at `(x, y)`
/// touches.
pub fn find_player(players: &Vec<Player>, x: i64, y: i64, kind: PairKind) -> (r: Option<usize>)
    ensures
        first_index(players@, player_touched(x as int, y as int, kind), 0) == match r {
            Some(j) => Some(j as int),
            None => None,
        },
        r matches Some(j) ==> j < players@.len(),
{
    let ghost p = player_touched(x as int, y as int, kind);
    let mut i: usize = 0;
    while i < players.len()
        invariant
            i <= players@.len(),
            first_index(players@, p, 0) == first_index(players@, p, i as int),
            p == player_touched(x as int, y as int, kind),
        decreases players@.len() - i,
    {
        if players[i].lives > 0 && touch(x, y, players[i].x, players[i].y, kind) {
            return Some(i);
        }
        i += 1;
    }
    None
}

/// Finds the first player that goes by the identity `id`.
pub fn find_player_by_id(players: &Vec<Player>, id: PlayerID) -> (r: Option<usize>)
    ensures
        first_index(players@, player_named(id), 0) == match r {
            Some(j) => Some(j as int),
            None => None,
        },
        r matches Some(j) ==> j < players@.len(),
{
    let ghost p = player_named(id);
    let mut i: usize = 0;
    while i < players.len()
        invariant
            i <= players@.len(),
            first_index(players@, p, 0) == first_index(players@, p, i as int),
            p == player_named(id),
        decreases players@.len() - i,
    {
        if players[i].id.id == id.id {
            return Some(i);
        }
        i += 1;
    }
    None
}

/// Takes a point of health from the `j`-th segment, and removes the segment
/// if that was its last.
pub fn hit_shield(shields: &mut Vec<ShieldPart>, j: usize)
    requires
        j < old(shields)@.len(),
    ensures
        final(shields)@ == damage_shield(old(shields)@, j as int),
{
    let part = shields.remove(j);
    if part.health > 1 {
        shields.insert(
            j,
            ShieldPart {
                health: part.health - 1,
                textures: part.textures,
                x: part.x,
                y: part.y,
                mirrored: part.mirrored,
            },
        );
        assert(shields@ =~= old(shields)@.update(j as int, worn(old(shields)@[j as int])));
    }
}

/// Gives a point to the first player that goes by the identity `id`.
pub fn add_score(players: &mut Vec<Player>, id: PlayerID)
    ensures
        final(players)@ == award_point(old(players)@, id),
{
    match find_player_by_id(players, id) {
        Some(i) => {
            let p = players[i];
            let score = if p.score < u32::MAX {
                p.score + 1
            } else {
                p.score
            };
            players.set(
                i,
                Player {
                    speed: p.speed,
                    lives: p.lives,
                    score,
                    id: p.id,
                    is_hit: p.is_hit,
                    x: p.x,
                    y: p.y,
                    texture: p.texture,
                },
            );
        },
        None => {},
    }
}

/// Takes a life from the `i`-th player, which has one left, marks the player
/// as hit, and returns the state that the hit leads to from the state
/// `before`.
pub fn hit_player(players: &mut Vec<Player>, i: usize, before: GameState) -> (state: GameState)
    requires
        i < old(players)@.len(),
        old(players)@[i as int].lives > 0,
    ensures
        final(players)@ == old(players)@.update(i as int, wounded(old(players)@[i as int])),
        state == state_after_hit(old(players)@[i as int], before),
{
    let p = players[i];
    let lives = p.lives - 1;
    players.set(
        i,
        Player {
            speed: p.speed,
            lives,
            score: p.score,
            id: p.id,
            is_hit: true,
            x: p.x,
            y: p.y,
            texture: p.texture,
        },
    );
    if lives == 0 || before == GameState::GameOver {
        GameState::GameOver
    } else {
        GameState::PlayerHit
    }
}

/// Resolves one bullet of a player against the game, as
/// [`resolve_player_bullet`] says, and tells whether the bullet is gone.
/// The bullets and everything outside the arena stay as they are.
pub fn player_bullet_collision(game: &mut Game, b: PlayerBullet) -> (gone: bool)
    ensures
        final(game).arena() == resolve_player_bullet(old(game).arena(), b).0,
        gone == resolve_player_bullet(old(game).arena(), b).1,
        *final(game) == (Game {
            shields: final(game).shields,
            invaders: final(game).invaders,
            players: final(game).players,
            ..*old(game)
        }),
{
    match find_shield(&game.shields, b.bullet.x, b.bullet.y, PairKind::PlayerBulletShield) {
        Some(j) => {
            hit_shield(&mut game.shields, j);
            true
        },
        None => match find_invader(
            &game.invaders,
            b.bullet.x,
            b.bullet.y,
            PairKind::PlayerBulletInvader,
        ) {
            Some(k) => {
                add_score(&mut game.players, b.player_id);
                game.invaders.remove(k);
                true
            },
            None => b.bullet.y > TOP_BOUND,
        },
    }
}

/// Resolves one bullet of an invader against the game, as
/// [`resolve_invader_bullet`] says, and tells whether the bullet is gone.
/// The bullets and everything outside the arena stay as they are.
pub fn invader_bullet_collision(game: &mut Game, b: InvaderBullet) -> (gone: bool)
    ensures
        final(game).arena() == resolve_invader_bullet(old(game).arena(), b).0,
        gone == resolve_invader_bullet(old(game).arena(), b).1,
        *final(game) == (Game {
            shields: final(game).shields,
            players: final(game).players,
            game_state: final(game).game_state,
            ..*old(game)
        }),
{
    let stopped = match b.bullet_type {
        InvaderBulletType::Bullet => find_shield(
            &game.shields,
            b.bullet.x,
            b.bullet.y,
            PairKind::InvaderBulletShield,
        ),
        InvaderBulletType::Bolt => None,
    };
    let worn = match stopped {
        Some(j) => {
            hit_shield(&mut game.shields, j);
            true
        },
        None => false,
    };
    match find_player(&game.players, b.bullet.x, b.bullet.y, PairKind::InvaderBulletPlayer) {
        Some(i) => {
            proof {
                lemma_first_index(
                    game.players@,
                    player_touched(
                        b.bullet.x as int,
                        b.bullet.y as int,
                        PairKind::InvaderBulletPlayer,
                    ),
                    0,
                );
            }
            game.game_state = hit_player(&mut game.players, i, game.game_state);
            true
        },
        None => worn || b.bullet.y < BOTTOM_BOUND,
    }
}

/// What one resolution step does: every bullet of a player is resolved in
/// turn, then every bullet of an invader, each against the game as the
/// bullets before it left it. The bullets that are gone leave the game in the
/// same step, and so does a segment on losing its last point of health.
/// Everything outside the arena and the two lists of bullets stays as it is.
///
/// Every position that the step reads is the one from its start, for the
/// step moves nothing ([`lemma_passes_move_nothing`]). What is removed is
/// removed at once, and not at the end of the step, so that a later bullet
/// of the same step finds neither a segment without health nor an invader
/// that is gone nor a player without lives: no health and no life is ever
/// taken below zero, and no invader is destroyed, or scored for, twice. A
/// bullet that would have touched only what an earlier bullet of the step
/// removed therefore flies on.
pub open spec fn bullet_collision_detection_post(pre: Game, post: Game) -> bool {
    let p = player_pass(pre.arena(), pre.player_bullets@, pre.player_bullets@.len());
    let q = invader_pass(p.0, pre.invader_bullets@, pre.invader_bullets@.len());
    &&& post.arena() == q.0
    &&& post.player_bullets@ == p.1
    &&& post.invader_bullets@ == q.1
    &&& post == (Game {
        shields: post.shields,
        invaders: post.invaders,
        players: post.players,
        game_state: post.game_state,
        player_bullets: post.player_bullets,
        invader_bullets: post.invader_bullets,
        ..pre
    })
}

/// Runs one resolution step, as [`bullet_collision_detection_post`] says.
/// No segment is left without health, no player leaves, no invader is
/// added, and the state of the game either stays or becomes `PlayerHit` or
/// `GameOver`; it is `GameOver` if a player lost its last life.
pub fn bullet_collision_detection(game: &mut Game)
    ensures
        bullet_collision_detection_post(*old(game), *final(game)),
        old(game).wf() ==> final(game).wf(),
        final(game).players@.len() == old(game).players@.len(),
        final(game).invaders@.len() <= old(game).invaders@.len(),
        final(game).game_state == old(game).game_state || final(game).game_state
            == GameState::PlayerHit || final(game).game_state == GameState::GameOver,
        forall|i: int|
            0 <= i < old(game).players@.len() && old(game).players@[i].lives > 0 && (
            #[trigger] final(game).players@[i]).lives == 0 ==> final(game).game_state
                == GameState::GameOver,
{
    let ghost start = game.arena();
    let mut flying: Vec<PlayerBullet> = Vec::new();
    let mut i: usize = 0;
    while i < game.player_bullets.len()
        invariant
            i <= game.player_bullets@.len(),
            game.arena() == player_pass(start, game.player_bullets@, i as nat).0,
            flying@ == player_pass(start, game.player_bullets@, i as nat).1,
            start == old(game).arena(),
            *game == (Game {
                shields: game.shields,
                invaders: game.invaders,
                players: game.players,
                ..*old(game)
            }),
        decreases game.player_bullets@.len() - i,
    {
        let b = game.player_bullets[i];
        let gone = player_bullet_collision(game, b);
        if !gone {
            flying.push(b);
        }
        i += 1;
    }
    let ghost middle = game.arena();
    let mut falling: Vec<InvaderBullet> = Vec::new();
    let mut i: usize = 0;
    while i < game.invader_bullets.len()
        invariant
            i <= game.invader_bullets@.len(),
            game.arena() == invader_pass(middle, game.invader_bullets@, i as nat).0,
            falling@ == invader_pass(middle, game.invader_bullets@, i as nat).1,
            *game == (Game {
                shields: game.shields,
                invaders: game.invaders,
                players: game.players,
                game_state: game.game_state,
                ..*old(game)
            }),
        decreases game.invader_bullets@.len() - i,
    {
        let b = game.invader_bullets[i];
        let gone = invader_bullet_collision(game, b);
        if !gone {
            falling.push(b);
        }
        i += 1;
    }
    proof {
        lemma_passes_decide_state(
            start,
            old(game).player_bullets@,
            old(game).player_bullets@.len(),
            old(game).invader_bullets@,
            old(game).invader_bullets@.len(),
        );
        lemma_passes_keep_players(
            start,
            old(game).player_bullets@,
            old(game).player_bullets@.len(),
            old(game).invader_bullets@,
            old(game).invader_bullets@.len(),
        );
        if old(game).wf() {
            lemma_passes_keep_shields_sound(
                start,
                old(game).player_bullets@,
                old(game).player_bullets@.len(),
                old(game).invader_bullets@,
                old(game).invader_bullets@.len(),
            );
        }
    }
    game.player_bullets = flying;
    game.invader_bullets = falling;
}

/// A hit on a segment with one point of health removes the segment in the
/// same step; a hit on a healthier one costs it exactly one point and leaves
/// the rest of it, and every other segment, as it was. Either way no segment
/// is left without health.
pub proof fn lemma_damage_shield(shields: Seq<ShieldPart>, j: int)
    requires
        0 <= j < shields.len(),
        all_sound(shields),
    ensures
        all_sound(damage_shield(shields, j)),
        shields[j].health == 1 ==> damage_shield(shields, j) == shields.remove(j),
        shields[j].health > 1 ==> {
            &&& damage_shield(shields, j).len() == shields.len()
            &&& damage_shield(shields, j)[j].health == shields[j].health - 1
            &&& damage_shield(shields, j)[j].textures == shields[j].textures
            &&& damage_shield(shields, j)[j].x == shields[j].x
            &&& damage_shield(shields, j)[j].y == shields[j].y
            &&& forall|k: int|
                0 <= k < shields.len() && k != j ==> damage_shield(shields, j)[k] == shields[k]
        },
{
    let after = damage_shield(shields, j);
    assert forall|i: int| 0 <= i < after.len() implies (#[trigger] after[i]).wf() by {
        if shields[j].health <= 1 {
            if i < j {
                assert(after[i] == shields[i]);
            } else {
                assert(after[i] == shields[i + 1]);
            }
        } else {
            if i != j {
                assert(after[i] == shields[i]);
            }
        }
    }
}

/// Resolving a player's bullet leaves no segment without health.
pub proof fn lemma_player_bullet_keeps_shields_sound(a: Arena, b: PlayerBullet)
    requires
        all_sound(a.shields),
    ensures
        all_sound(resolve_player_bullet(a, b).0.shields),
{
    let hit = shield_touched(b.bullet.x as int, b.bullet.y as int, PairKind::PlayerBulletShield);
    lemma_first_index(a.shields, hit, 0);
    if let Some(j) = first_index(a.shields, hit, 0) {
        lemma_damage_shield(a.shields, j);
    }
}

/// Resolving an invader's bullet leaves no segment without health.
pub proof fn lemma_invader_bullet_keeps_shields_sound(a: Arena, b: InvaderBullet)
    requires
        all_sound(a.shields),
    ensures
        all_sound(resolve_invader_bullet(a, b).0.shields),
{
    let hit = shield_touched(b.bullet.x as int, b.bullet.y as int, PairKind::InvaderBulletShield);
    lemma_first_index(a.shields, hit, 0);
    if let Some(j) = first_index(a.shields, hit, 0) {
        lemma_damage_shield(a.shields, j);
    }
}

/// A whole resolution step leaves no segment without health.
pub proof fn lemma_passes_keep_shields_sound(
    a: Arena,
    ps: Seq<PlayerBullet>,
    n: nat,
    qs: Seq<InvaderBullet>,
    m: nat,
)
    requires
        all_sound(a.shields),
    ensures
        all_sound(player_pass(a, ps, n).0.shields),
        all_sound(invader_pass(player_pass(a, ps, n).0, qs, m).0.shields),
    decreases n + m,
{
    if m > 0 {
        lemma_passes_keep_shields_sound(a, ps, n, qs, (m - 1) as nat);
        let before = invader_pass(player_pass(a, ps, n).0, qs, (m - 1) as nat).0;
        lemma_invader_bullet_keeps_shields_sound(before, qs[m - 1]);
    } else if n > 0 {
        lemma_passes_keep_shields_sound(a, ps, (n - 1) as nat, qs, 0);
        let before = player_pass(a, ps, (n - 1) as nat).0;
        lemma_player_bullet_keeps_shields_sound(before, ps[n - 1]);
    }
}

/// A hit costs the player exactly one of the lives that were left, and no
/// player ever gains a life or drops below zero. After a hit that took the
/// last life the game is over; after any other hit the player is out of play
/// for a while, unless the game was over already. A bullet that hits no
/// player leaves players and state alone.
pub proof fn lemma_player_hit(a: Arena, b: InvaderBullet)
    ensures
        ({
            let r = resolve_invader_bullet(a, b).0;
            &&& r.players.len() == a.players.len()
            &&& forall|i: int|
                0 <= i < a.players.len() ==> (#[trigger] r.players[i]).lives <= a.players[i].lives
            &&& forall|i: int|
                0 <= i < a.players.len() && #[trigger] r.players[i] != a.players[i] ==> {
                    &&& a.players[i].lives > 0
                    &&& r.players[i].lives == a.players[i].lives - 1
                    &&& r.players[i].is_hit
                    &&& (r.players[i].lives == 0 ==> r.game_state == GameState::GameOver)
                    &&& (r.players[i].lives > 0 ==> r.game_state == if a.game_state
                        == GameState::GameOver {
                        GameState::GameOver
                    } else {
                        GameState::PlayerHit
                    })
                }
            &&& (r.players == a.players ==> r.game_state == a.game_state)
        }),
{
    let hit = player_touched(b.bullet.x as int, b.bullet.y as int, PairKind::InvaderBulletPlayer);
    lemma_first_index(a.players, hit, 0);
}

/// A bullet of a player costs no player a life, leaves the state of the
/// game alone, and adds no invader.
pub proof fn lemma_player_bullet_spares_players(a: Arena, b: PlayerBullet)
    ensures
        ({
            let r = resolve_player_bullet(a, b).0;
            &&& r.players.len() == a.players.len()
            &&& forall|i: int|
                0 <= i < a.players.len() ==> (#[trigger] r.players[i]).lives == a.players[i].lives
            &&& r.game_state == a.game_state
            &&& r.invaders.len() <= a.invaders.len()
        }),
{
    lemma_first_index(a.players, player_named(b.player_id), 0);
    lemma_first_index(
        a.invaders,
        invader_touched(b.bullet.x as int, b.bullet.y as int, PairKind::PlayerBulletInvader),
        0,
    );
}

/// Over a whole resolution step the players stay the same in number, none
/// gains a life, no invader is added, and the state of the game either stays
/// or becomes `PlayerHit` or `GameOver`.
pub proof fn lemma_passes_keep_players(
    a: Arena,
    ps: Seq<PlayerBullet>,
    n: nat,
    qs: Seq<InvaderBullet>,
    m: nat,
)
    ensures
        ({
            let r = invader_pass(player_pass(a, ps, n).0, qs, m).0;
            &&& r.players.len() == a.players.len()
            &&& forall|i: int|
                0 <= i < a.players.len() ==> (#[trigger] r.players[i]).lives <= a.players[i].lives
            &&& (r.game_state == a.game_state || r.game_state == GameState::PlayerHit
                || r.game_state == GameState::GameOver)
            &&& r.invaders.len() <= a.invaders.len()
        }),
    decreases n + m,
{
    if m > 0 {
        lemma_passes_keep_players(a, ps, n, qs, (m - 1) as nat);
        let before = invader_pass(player_pass(a, ps, n).0, qs, (m - 1) as nat).0;
        lemma_player_hit(before, qs[m - 1]);
    } else if n > 0 {
        lemma_passes_keep_players(a, ps, (n - 1) as nat, qs, 0);
        let before = player_pass(a, ps, (n - 1) as nat).0;
        lemma_player_bullet_spares_players(before, ps[n - 1]);
    }
}

/// Whether the segment `after` is the segment `before` with what health it
/// has left: in the same place, with the same textures.
pub open spec fn same_segment(after: ShieldPart, before: ShieldPart) -> bool {
    &&& after.x == before.x
    &&& after.y == before.y
    &&& after.textures == before.textures
    &&& after.mirrored == before.mirrored
    &&& after.health <= before.health
}

/// Whether the segment `s` is one of the segments `before`, with what health
/// it has left.
pub open spec fn segment_remains(s: ShieldPart, before: Seq<ShieldPart>) -> bool {
    exists|j: int| 0 <= j < before.len() && same_segment(s, #[trigger] before[j])
}

/// Whether the player `after` is the player `before` but for the counters:
/// it may have lost lives, been marked as hit and scored, and nothing else.
pub open spec fn same_player(after: Player, before: Player) -> bool {
    &&& after == (Player {
        lives: after.lives,
        is_hit: after.is_hit,
        score: after.score,
        ..before
    })
    &&& after.lives <= before.lives
    &&& after.score >= before.score
    &&& before.is_hit ==> after.is_hit
}

/// Whether the arena `after` holds nothing that `before` did not hold, and
/// nothing in another place: its invaders are invaders of `before`, its
/// segments are segments of `before` with what health they have left, and
/// its players are the players of `before` but for their counters.
pub open spec fn nothing_moved(before: Arena, after: Arena) -> bool {
    &&& forall|k: int|
        0 <= k < after.invaders.len() ==> before.invaders.contains(#[trigger] after.invaders[k])
    &&& forall|k: int|
        0 <= k < after.shields.len() ==> segment_remains(
            #[trigger] after.shields[k],
            before.shields,
        )
    &&& after.players.len() == before.players.len()
    &&& forall|i: int|
        0 <= i < before.players.len() ==> same_player(
            #[trigger] after.players[i],
            before.players[i],
        )
}

/// Resolving a player's bullet moves nothing.
pub proof fn lemma_player_bullet_moves_nothing(a: Arena, b: PlayerBullet)
    ensures
        nothing_moved(a, resolve_player_bullet(a, b).0),
{
    let r = resolve_player_bullet(a, b).0;
    let x = b.bullet.x as int;
    let y = b.bullet.y as int;
    lemma_first_index(a.shields, shield_touched(x, y, PairKind::PlayerBulletShield), 0);
    lemma_first_index(a.invaders, invader_touched(x, y, PairKind::PlayerBulletInvader), 0);
    lemma_first_index(a.players, player_named(b.player_id), 0);
    lemma_hit_keeps_segments(
        a.shields,
        first_index(a.shields, shield_touched(x, y, PairKind::PlayerBulletShield), 0),
    );
    assert forall|k: int| 0 <= k < r.invaders.len() implies a.invaders.contains(
        #[trigger] r.invaders[k],
    ) by {
        if r.invaders == a.invaders {
            assert(a.invaders[k] == r.invaders[k]);
        } else {
            let gone = first_index(
                a.invaders,
                invader_touched(x, y, PairKind::PlayerBulletInvader),
                0,
            ).unwrap();
            if k < gone {
                assert(a.invaders[k] == r.invaders[k]);
            } else {
                assert(a.invaders[k + 1] == r.invaders[k]);
            }
        }
    }
}

/// Resolving an invader's bullet moves nothing.
pub proof fn lemma_invader_bullet_moves_nothing(a: Arena, b: InvaderBullet)
    ensures
        nothing_moved(a, resolve_invader_bullet(a, b).0),
{
    let r = resolve_invader_bullet(a, b).0;
    let x = b.bullet.x as int;
    let y = b.bullet.y as int;
    lemma_first_index(a.shields, shield_touched(x, y, PairKind::InvaderBulletShield), 0);
    lemma_first_index(a.players, player_touched(x, y, PairKind::InvaderBulletPlayer), 0);
    lemma_hit_keeps_segments(a.shields, segment_stopping(a.shields, b));
    assert forall|k: int| 0 <= k < r.invaders.len() implies a.invaders.contains(
        #[trigger] r.invaders[k],
    ) by {
        assert(a.invaders[k] == r.invaders[k]);
    }
}

/// The segments after a hit on one of them, or after none, are segments of
/// before the hit, with what health they have left.
proof fn lemma_hit_keeps_segments(shields: Seq<ShieldPart>, hit: Option<int>)
    requires
        hit matches Some(j) ==> 0 <= j < shields.len(),
    ensures
        ({
            let after = match hit {
                Some(j) => damage_shield(shields, j),
                None => shields,
            };
            forall|k: int| 0 <= k < after.len() ==> segment_remains(#[trigger] after[k], shields)
        }),
{
    let after = match hit {
        Some(j) => damage_shield(shields, j),
        None => shields,
    };
    assert forall|k: int| 0 <= k < after.len() implies segment_remains(
        #[trigger] after[k],
        shields,
    ) by {
        match hit {
            Some(j) => {
                if shields[j].health <= 1 {
                    if k < j {
                        assert(same_segment(after[k], shields[k]));
                    } else {
                        assert(same_segment(after[k], shields[k + 1]));
                    }
                } else {
                    assert(same_segment(after[k], shields[k]));
                }
            },
            None => {
                assert(same_segment(after[k], shields[k]));
            },
        }
    }
}

/// What stays put over two steps stays put over both together.
proof fn lemma_nothing_moved_twice(a: Arena, b: Arena, c: Arena)
    requires
        nothing_moved(a, b),
        nothing_moved(b, c),
    ensures
        nothing_moved(a, c),
{
    assert forall|k: int| 0 <= k < c.invaders.len() implies a.invaders.contains(
        #[trigger] c.invaders[k],
    ) by {
        assert(b.invaders.contains(c.invaders[k]));
        let j = choose|j: int| 0 <= j < b.invaders.len() && b.invaders[j] == c.invaders[k];
        assert(a.invaders.contains(b.invaders[j]));
    }
    assert forall|k: int| 0 <= k < c.shields.len() implies segment_remains(
        #[trigger] c.shields[k],
        a.shields,
    ) by {
        assert(segment_remains(c.shields[k], b.shields));
        let j = choose|j: int|
            0 <= j < b.shields.len() && same_segment(c.shields[k], #[trigger] b.shields[j]);
        assert(segment_remains(b.shields[j], a.shields));
        let i = choose|i: int|
            0 <= i < a.shields.len() && same_segment(b.shields[j], #[trigger] a.shields[i]);
        assert(same_segment(c.shields[k], a.shields[i]));
    }
    assert forall|i: int| 0 <= i < a.players.len() implies same_player(
        #[trigger] c.players[i],
        a.players[i],
    ) by {
        assert(same_player(c.players[i], b.players[i]));
        assert(same_player(b.players[i], a.players[i]));
    }
}

/// A whole resolution step moves nothing and adds nothing: what it leaves
/// in the arena was there before, in the same place. It only takes segments,
/// invaders, health and lives away, and adds to the score.
pub proof fn lemma_passes_move_nothing(
    a: Arena,
    ps: Seq<PlayerBullet>,
    n: nat,
    qs: Seq<InvaderBullet>,
    m: nat,
)
    ensures
        nothing_moved(a, invader_pass(player_pass(a, ps, n).0, qs, m).0),
    decreases n + m,
{
    if m > 0 {
        lemma_passes_move_nothing(a, ps, n, qs, (m - 1) as nat);
        let before = invader_pass(player_pass(a, ps, n).0, qs, (m - 1) as nat).0;
        lemma_invader_bullet_moves_nothing(before, qs[m - 1]);
        lemma_nothing_moved_twice(a, before, resolve_invader_bullet(before, qs[m - 1]).0);
    } else if n > 0 {
        lemma_passes_move_nothing(a, ps, (n - 1) as nat, qs, 0);
        let before = player_pass(a, ps, (n - 1) as nat).0;
        lemma_player_bullet_moves_nothing(before, ps[n - 1]);
        lemma_nothing_moved_twice(a, before, resolve_player_bullet(before, ps[n - 1]).0);
    } else {
        assert forall|k: int| 0 <= k < a.invaders.len() implies a.invaders.contains(
            #[trigger] a.invaders[k],
        ) by {}
        assert forall|k: int| 0 <= k < a.shields.len() implies segment_remains(
            #[trigger] a.shields[k],
            a.shields,
        ) by {
            assert(same_segment(a.shields[k], a.shields[k]));
        }
    }
}

/// Whether no player has fewer lives in `after` than in `before`.
pub open spec fn no_life_lost(before: Seq<Player>, after: Seq<Player>) -> bool {
    forall|i: int| 0 <= i < before.len() ==> (#[trigger] after[i]).lives == before[i].lives
}

/// What a whole resolution step does to the state of the game. If no
/// player lost a life, the state is as it was. If a player lost a life, the
/// game is over or the player is out of play for a while. If a player lost
/// its last life, the game is over, whatever else was hit in the step.
pub proof fn lemma_passes_decide_state(
    a: Arena,
    ps: Seq<PlayerBullet>,
    n: nat,
    qs: Seq<InvaderBullet>,
    m: nat,
)
    ensures
        ({
            let r = invader_pass(player_pass(a, ps, n).0, qs, m).0;
            &&& r.players.len() == a.players.len()
            &&& no_life_lost(a.players, r.players) ==> r.game_state == a.game_state
            &&& !no_life_lost(a.players, r.players) ==> r.game_state == GameState::GameOver
                || r.game_state == GameState::PlayerHit
            &&& forall|i: int|
                0 <= i < a.players.len() && a.players[i].lives > 0 && (
                #[trigger] r.players[i]).lives == 0 ==> r.game_state == GameState::GameOver
        }),
    decreases n + m,
{
    let r = invader_pass(player_pass(a, ps, n).0, qs, m).0;
    if m > 0 {
        lemma_passes_decide_state(a, ps, n, qs, (m - 1) as nat);
        lemma_passes_keep_players(a, ps, n, qs, (m - 1) as nat);
        let before = invader_pass(player_pass(a, ps, n).0, qs, (m - 1) as nat).0;
        let b = qs[m - 1];
        let touched = player_touched(
            b.bullet.x as int,
            b.bullet.y as int,
            PairKind::InvaderBulletPlayer,
        );
        lemma_first_index(before.players, touched, 0);
        assert(r == resolve_invader_bullet(before, b).0);
        match first_index(before.players, touched, 0) {
            Some(hit) => {
                assert(r.players[hit].lives < a.players[hit].lives);
                assert(!no_life_lost(a.players, r.players));
                assert forall|i: int|
                    0 <= i < a.players.len() && a.players[i].lives > 0 && (
                    #[trigger] r.players[i]).lives == 0 implies r.game_state
                    == GameState::GameOver by {
                    if i != hit {
                        assert(r.players[i] == before.players[i]);
                        assert(before.players[i].lives == 0);
                    }
                }
            },
            None => {
                assert(r.players == before.players);
                assert(r.game_state == before.game_state);
            },
        }
    } else if n > 0 {
        lemma_passes_decide_state(a, ps, (n - 1) as nat, qs, 0);
        lemma_passes_keep_players(a, ps, (n - 1) as nat, qs, 0);
        let before = player_pass(a, ps, (n - 1) as nat).0;
        lemma_player_bullet_spares_players(before, ps[n - 1]);
        assert(r == resolve_player_bullet(before, ps[n - 1]).0);
        lemma_same_lives(a.players, before.players, r.players);
        assert forall|i: int|
            0 <= i < a.players.len() && a.players[i].lives > 0 && (
            #[trigger] r.players[i]).lives == 0 implies r.game_state == GameState::GameOver by {
            assert(before.players[i].lives == 0);
        }
    }
}

/// Players with the same lives have lost the same lives.
proof fn lemma_same_lives(a: Seq<Player>, x: Seq<Player>, y: Seq<Player>)
    requires
        x.len() == a.len(),
        y.len() == a.len(),
        forall|i: int| 0 <= i < a.len() ==> (#[trigger] y[i]).lives == x[i].lives,
    ensures
        no_life_lost(a, x) == no_life_lost(a, y),
{
    if no_life_lost(a, x) {
        assert forall|i: int| 0 <= i < a.len() implies (#[trigger] y[i]).lives == a[i].lives by {
            assert(x[i].lives == a[i].lives);
        }
    }
    if no_life_lost(a, y) {
        assert forall|i: int| 0 <= i < a.len() implies (#[trigger] x[i]).lives == a[i].lives by {
            assert(y[i].lives == a[i].lives);
        }
    }
}

/// Whether something at `(x, y)` touches none of the segments.
pub open spec fn misses_shields(shields: Seq<ShieldPart>, x: int, y: int, kind: PairKind) -> bool {
    first_index(shields, shield_touched(x, y, kind), 0) is None
}

/// What touches none of the segments touches none of those that remain of
/// them.
proof fn lemma_miss_stays_a_miss(
    before: Seq<ShieldPart>,
    now: Seq<ShieldPart>,
    x: int,
    y: int,
    kind: PairKind,
)
    requires
        misses_shields(before, x, y, kind),
        forall|k: int| 0 <= k < now.len() ==> segment_remains(#[trigger] now[k], before),
    ensures
        misses_shields(now, x, y, kind),
{
    lemma_first_index(before, shield_touched(x, y, kind), 0);
    lemma_first_index(now, shield_touched(x, y, kind), 0);
    if let Some(j) = first_index(now, shield_touched(x, y, kind), 0) {
        assert(segment_remains(now[j], before));
        let i = choose|i: int| 0 <= i < before.len() && same_segment(now[j], #[trigger] before[i]);
        assert(shield_touched(x, y, kind)(before[i]));
    }
}

/// What the segments are after the first `n` player bullets of a step in
/// which only the `k`-th of them touches a segment, and that one first a
/// segment with one point of health: the segment is gone from the `k`-th
/// bullet on, and that bullet with it.
proof fn lemma_player_pass_with_one_hit(
    a: Arena,
    ps: Seq<PlayerBullet>,
    n: nat,
    k: int,
    j: int,
)
    requires
        n <= ps.len(),
        0 <= k < ps.len(),
        0 <= j < a.shields.len(),
        a.shields[j].health == 1,
        first_index(
            a.shields,
            shield_touched(
                ps[k].bullet.x as int,
                ps[k].bullet.y as int,
                PairKind::PlayerBulletShield,
            ),
            0,
        ) == Some(j),
        forall|i: int|
            0 <= i < ps.len() && i != k ==> misses_shields(
                a.shields,
                (#[trigger] ps[i]).bullet.x as int,
                ps[i].bullet.y as int,
                PairKind::PlayerBulletShield,
            ),
    ensures
        player_pass(a, ps, n).0.shields == if n <= k {
            a.shields
        } else {
            a.shields.remove(j)
        },
        player_pass(a, ps, n).1.len() <= if n <= k {
            n as int
        } else {
            n - 1
        },
    decreases n,
{
    if n > 0 {
        lemma_player_pass_with_one_hit(a, ps, (n - 1) as nat, k, j);
        let before = player_pass(a, ps, (n - 1) as nat).0;
        let b = ps[n - 1];
        if n - 1 != k {
            assert(misses_shields(
                a.shields,
                b.bullet.x as int,
                b.bullet.y as int,
                PairKind::PlayerBulletShield,
            ));
            if n - 1 > k {
                lemma_hit_keeps_segments(a.shields, Some(j));
                lemma_miss_stays_a_miss(
                    a.shields,
                    before.shields,
                    b.bullet.x as int,
                    b.bullet.y as int,
                    PairKind::PlayerBulletShield,
                );
            }
        }
    }
}

/// Invader bullets that wear no segment leave the segments as they are.
proof fn lemma_invader_pass_without_hit(
    start: Seq<ShieldPart>,
    a: Arena,
    qs: Seq<InvaderBullet>,
    m: nat,
)
    requires
        m <= qs.len(),
        forall|k: int| 0 <= k < a.shields.len() ==> segment_remains(#[trigger] a.shields[k], start),
        forall|i: int| 0 <= i < qs.len() ==> segment_stopping(start, #[trigger] qs[i]) is None,
    ensures
        invader_pass(a, qs, m).0.shields == a.shields,
    decreases m,
{
    if m > 0 {
        lemma_invader_pass_without_hit(start, a, qs, (m - 1) as nat);
        let b = qs[m - 1];
        assert(segment_stopping(start, b) is None);
        if b.bullet_type == InvaderBulletType::Bullet {
            lemma_miss_stays_a_miss(
                start,
                a.shields,
                b.bullet.x as int,
                b.bullet.y as int,
                PairKind::InvaderBulletShield,
            );
        }
    }
}

/// A segment with one point of health that a player's bullet hits is
/// removed in the same resolution step, together with the bullet, and the
/// other segments stay as they are, provided that no other bullet of the step
/// touches a segment. Here the `k`-th player bullet first touches the `j`-th
/// segment.
pub proof fn lemma_step_removes_segment_hit_by_player(pre: Game, post: Game, k: int, j: int)
    requires
        bullet_collision_detection_post(pre, post),
        0 <= k < pre.player_bullets@.len(),
        0 <= j < pre.shields@.len(),
        pre.shields@[j].health == 1,
        first_index(
            pre.shields@,
            shield_touched(
                pre.player_bullets@[k].bullet.x as int,
                pre.player_bullets@[k].bullet.y as int,
                PairKind::PlayerBulletShield,
            ),
            0,
        ) == Some(j),
        forall|i: int|
            0 <= i < pre.player_bullets@.len() && i != k ==> misses_shields(
                pre.shields@,
                (#[trigger] pre.player_bullets@[i]).bullet.x as int,
                pre.player_bullets@[i].bullet.y as int,
                PairKind::PlayerBulletShield,
            ),
        forall|i: int|
            0 <= i < pre.invader_bullets@.len() ==> segment_stopping(
                pre.shields@,
                #[trigger] pre.invader_bullets@[i],
            ) is None,
    ensures
        post.shields@ == pre.shields@.remove(j),
        post.player_bullets@.len() < pre.player_bullets@.len(),
{
    let a = pre.arena();
    let n = pre.player_bullets@.len();
    lemma_player_pass_with_one_hit(a, pre.player_bullets@, n, k, j);
    let mid = player_pass(a, pre.player_bullets@, n).0;
    lemma_hit_keeps_segments(a.shields, Some(j));
    lemma_invader_pass_without_hit(
        a.shields,
        mid,
        pre.invader_bullets@,
        pre.invader_bullets@.len(),
    );
}

/// Player bullets that touch no segment leave the segments as they are.
proof fn lemma_player_pass_without_hit(a: Arena, ps: Seq<PlayerBullet>, n: nat)
    requires
        n <= ps.len(),
        forall|i: int|
            0 <= i < ps.len() ==> misses_shields(
                a.shields,
                (#[trigger] ps[i]).bullet.x as int,
                ps[i].bullet.y as int,
                PairKind::PlayerBulletShield,
            ),
    ensures
        player_pass(a, ps, n).0.shields == a.shields,
    decreases n,
{
    if n > 0 {
        lemma_player_pass_without_hit(a, ps, (n - 1) as nat);
        let b = ps[n - 1];
        assert(misses_shields(
            a.shields,
            b.bullet.x as int,
            b.bullet.y as int,
            PairKind::PlayerBulletShield,
        ));
    }
}

/// What the segments are after the first `m` invader bullets of a pass in
/// which only the `k`-th of them wears a segment, and that one a segment
/// with one point of health: the segment is gone from the `k`-th bullet on,
/// and that bullet with it.
proof fn lemma_invader_pass_with_one_hit(
    a: Arena,
    qs: Seq<InvaderBullet>,
    m: nat,
    k: int,
    j: int,
)
    requires
        m <= qs.len(),
        0 <= k < qs.len(),
        0 <= j < a.shields.len(),
        a.shields[j].health == 1,
        segment_stopping(a.shields, qs[k]) == Some(j),
        forall|i: int|
            0 <= i < qs.len() && i != k ==> segment_stopping(a.shields, #[trigger] qs[i]) is None,
    ensures
        invader_pass(a, qs, m).0.shields == if m <= k {
            a.shields
        } else {
            a.shields.remove(j)
        },
        invader_pass(a, qs, m).1.len() <= if m <= k {
            m as int
        } else {
            m - 1
        },
    decreases m,
{
    if m > 0 {
        lemma_invader_pass_with_one_hit(a, qs, (m - 1) as nat, k, j);
        let before = invader_pass(a, qs, (m - 1) as nat).0;
        let b = qs[m - 1];
        if m - 1 != k {
            assert(segment_stopping(a.shields, b) is None);
            if m - 1 > k && b.bullet_type == InvaderBulletType::Bullet {
                lemma_hit_keeps_segments(a.shields, Some(j));
                lemma_miss_stays_a_miss(
                    a.shields,
                    before.shields,
                    b.bullet.x as int,
                    b.bullet.y as int,
                    PairKind::InvaderBulletShield,
                );
            }
        }
    }
}

/// A segment with one point of health that an invader's `Bullet` hits is
/// removed in the same resolution step, together with the bullet, and the
/// other segments stay as they are, provided that no other bullet of the step
/// touches a segment. Here the `k`-th invader bullet first touches the
/// `j`-th segment.
pub proof fn lemma_step_removes_segment_hit_by_invader(pre: Game, post: Game, k: int, j: int)
    requires
        bullet_collision_detection_post(pre, post),
        0 <= k < pre.invader_bullets@.len(),
        0 <= j < pre.shields@.len(),
        pre.shields@[j].health == 1,
        segment_stopping(pre.shields@, pre.invader_bullets@[k]) == Some(j),
        forall|i: int|
            0 <= i < pre.invader_bullets@.len() && i != k ==> segment_stopping(
                pre.shields@,
                #[trigger] pre.invader_bullets@[i],
            ) is None,
        forall|i: int|
            0 <= i < pre.player_bullets@.len() ==> misses_shields(
                pre.shields@,
                (#[trigger] pre.player_bullets@[i]).bullet.x as int,
                pre.player_bullets@[i].bullet.y as int,
                PairKind::PlayerBulletShield,
            ),
    ensures
        post.shields@ == pre.shields@.remove(j),
        post.invader_bullets@.len() < pre.invader_bullets@.len(),
{
    let a = pre.arena();
    lemma_player_pass_without_hit(a, pre.player_bullets@, pre.player_bullets@.len());
    let mid = player_pass(a, pre.player_bullets@, pre.player_bullets@.len()).0;
    lemma_invader_pass_with_one_hit(
        mid,
        pre.invader_bullets@,
        pre.invader_bullets@.len(),
        k,
        j,
    );
}

/// What the lives of the `i`-th player are after the first `m` invader
/// bullets of a step in which only the `k`-th of them touches that player,
/// and hits it: one fewer from the `k`-th bullet on, and that bullet is gone.
proof fn lemma_invader_pass_with_one_hit_on_player(
    a: Arena,
    ps: Seq<PlayerBullet>,
    qs: Seq<InvaderBullet>,
    m: nat,
    k: int,
    i: int,
)
    requires
        m <= qs.len(),
        0 <= k < qs.len(),
        0 <= i < a.players.len(),
        a.players[i].lives >= 1,
        first_index(
            a.players,
            player_touched(
                qs[k].bullet.x as int,
                qs[k].bullet.y as int,
                PairKind::InvaderBulletPlayer,
            ),
            0,
        ) == Some(i),
        forall|h: int|
            0 <= h < qs.len() && h != k ==> !touches(
                (#[trigger] qs[h]).bullet.x as int,
                qs[h].bullet.y as int,
                a.players[i].x as int,
                a.players[i].y as int,
                PairKind::InvaderBulletPlayer,
            ),
    ensures
        ({
            let r = invader_pass(player_pass(a, ps, ps.len()).0, qs, m);
            &&& r.0.players.len() == a.players.len()
            &&& r.0.players[i].lives == if m <= k {
                a.players[i].lives as int
            } else {
                a.players[i].lives - 1
            }
            &&& m > k ==> r.0.players[i].is_hit
            &&& r.1.len() <= if m <= k {
                m as int
            } else {
                m - 1
            }
        }),
    decreases m,
{
    let mid = player_pass(a, ps, ps.len()).0;
    if m == 0 {
        lemma_player_pass_spares_lives(a, ps, ps.len());
    } else {
        lemma_invader_pass_with_one_hit_on_player(a, ps, qs, (m - 1) as nat, k, i);
        lemma_passes_move_nothing(a, ps, ps.len(), qs, (m - 1) as nat);
        let before = invader_pass(mid, qs, (m - 1) as nat).0;
        let b = qs[m - 1];
        let touched = player_touched(
            b.bullet.x as int,
            b.bullet.y as int,
            PairKind::InvaderBulletPlayer,
        );
        lemma_first_index(before.players, touched, 0);
        assert(same_player(before.players[i], a.players[i]));
        if m - 1 == k {
            lemma_first_index(a.players, touched, 0);
            assert(touched(a.players[i]));
            assert(touched(before.players[i]));
            match first_index(before.players, touched, 0) {
                Some(found) => {
                    if found < i {
                        assert(same_player(before.players[found], a.players[found]));
                        assert(touched(a.players[found]));
                    }
                    assert(found == i);
                },
                None => {},
            }
        } else {
            assert(!touched(before.players[i]));
        }
    }
}

/// Player bullets take no life: after any number of them every player has
/// the lives it had.
proof fn lemma_player_pass_spares_lives(a: Arena, ps: Seq<PlayerBullet>, n: nat)
    ensures
        player_pass(a, ps, n).0.players.len() == a.players.len(),
        forall|i: int|
            0 <= i < a.players.len() ==> (#[trigger] player_pass(a, ps, n).0.players[i]).lives
                == a.players[i].lives,
    decreases n,
{
    if n > 0 {
        lemma_player_pass_spares_lives(a, ps, (n - 1) as nat);
        lemma_player_bullet_spares_players(player_pass(a, ps, (n - 1) as nat).0, ps[n - 1]);
    }
}

/// A player that exactly one invader bullet of a resolution step touches,
/// while it has a life left, loses exactly one life in that step and is
/// marked as hit; the bullet is gone; and the player keeps its identity,
/// speed, position and texture, and the score that it had or has made in the
/// step. Here the `k`-th invader bullet hits the `i`-th player.
pub proof fn lemma_step_takes_one_life(pre: Game, post: Game, k: int, i: int)
    requires
        bullet_collision_detection_post(pre, post),
        0 <= k < pre.invader_bullets@.len(),
        0 <= i < pre.players@.len(),
        pre.players@[i].lives >= 1,
        first_index(
            pre.players@,
            player_touched(
                pre.invader_bullets@[k].bullet.x as int,
                pre.invader_bullets@[k].bullet.y as int,
                PairKind::InvaderBulletPlayer,
            ),
            0,
        ) == Some(i),
        forall|h: int|
            0 <= h < pre.invader_bullets@.len() && h != k ==> !touches(
                (#[trigger] pre.invader_bullets@[h]).bullet.x as int,
                pre.invader_bullets@[h].bullet.y as int,
                pre.players@[i].x as int,
                pre.players@[i].y as int,
                PairKind::InvaderBulletPlayer,
            ),
    ensures
        post.players@.len() == pre.players@.len(),
        post.players@[i].lives == pre.players@[i].lives - 1,
        post.players@[i].is_hit,
        same_player(post.players@[i], pre.players@[i]),
        post.invader_bullets@.len() < pre.invader_bullets@.len(),
        post.game_state == GameState::GameOver || post.game_state == GameState::PlayerHit,
        post.players@[i].lives == 0 ==> post.game_state == GameState::GameOver,
{
    let a = pre.arena();
    lemma_invader_pass_with_one_hit_on_player(
        a,
        pre.player_bullets@,
        pre.invader_bullets@,
        pre.invader_bullets@.len(),
        k,
        i,
    );
    lemma_passes_move_nothing(
        a,
        pre.player_bullets@,
        pre.player_bullets@.len(),
        pre.invader_bullets@,
        pre.invader_bullets@.len(),
    );
    lemma_passes_decide_state(
        a,
        pre.player_bullets@,
        pre.player_bullets@.len(),
        pre.invader_bullets@,
        pre.invader_bullets@.len(),
    );
    assert(post.players@[i].lives < pre.players@[i].lives);
}

/// A `Bolt` passes through the shields: whatever it does, every segment
/// stays as it was.
pub proof fn lemma_bolt_bypasses_shields(a: Arena, b: InvaderBullet)
    requires
        b.bullet_type == InvaderBulletType::Bolt,
    ensures
        resolve_invader_bullet(a, b).0.shields == a.shields,
        resolve_invader_bullet(a, b).0.invaders == a.invaders,
{
}

} // verus!
