//! The initialization sequence: it creates the player, the displays, the
//! shields and the formation, at the start of a game and at each restart.

use crate::components::shape_textures;
use crate::components::textures_of;
use crate::components::Invader;
use crate::components::Player;
use crate::components::PlayerID;
use crate::components::PlayerLife;
use crate::components::PlayerScore;
use crate::components::ShieldPart;
use crate::components::Shooter;
use crate::enums::InvaderDirection;
use crate::enums::ShieldShape;
use crate::enums::Texture;
use crate::game::Game;
use crate::game::INVADER_SPEED;
use crate::geometry::shift;
use crate::geometry::shifted;
use crate::random::random_u32;
use crate::resources::GameState;
use crate::resources::InvaderSpeed;
use vstd::prelude::*;

verus! {

/// Number of shields.
pub const SHIELD_NUMS: usize = 4;

/// Number of segments in one shield.
pub const SHIELD_SEGMENTS: usize = 10;

/// Distance along x from one shield to the next, in sub-units.
pub const SHIELD_SPACING: i64 = 50_000_000_000;

/// Distance between neighbouring segments of a shield along either axis, in
/// sub-units.
pub const SEGMENT_SPACING: i64 = 6_000_000_000;

/// Position along x of the left column of the first shield, in sub-units.
pub const SHIELD_LEFT: i64 = -83_750_000_000;

/// Height of the top row of every shield, in sub-units.
pub const SHIELD_TOP: i64 = -40_000_000_000;

/// Number of invaders in a row of the formation.
pub const INVADER_COLS: usize = 11;

/// Number of double rows of invaders that cannot fire.
pub const INVADER_DECOY_ROWS: usize = 2;

/// Number of rows of invaders that can fire.
pub const INVADER_SHOOTER_ROWS: usize = 1;

/// Distance between neighbouring invaders along either axis, in sub-units.
pub const INVADER_SPACING: i64 = 16_000_000_000;

/// Position of the leftmost column of a fresh formation, in sub-units.
pub const FORMATION_LEFT: i64 = -80_000_000_000;

/// Height of the lowest row of bottom invaders, in sub-units.
pub const BOTTOM_ROWS_BASE: i64 = 6_000_000_000;

/// Height of the lowest row of middle invaders, in sub-units.
pub const MIDDLE_ROWS_BASE: i64 = 36_000_000_000;

/// Height of the lowest row of top invaders, which can fire, in sub-units.
pub const TOP_ROWS_BASE: i64 = 68_000_000_000;

/// Number of invaders in a fresh formation.
pub const FORMATION_SIZE: usize = 55;

/// Where a new player stands along x, in sub-units.
pub const PLAYER_START_X: i64 = -77_750_000_000;

/// Height at which a new player stands, in sub-units.
pub const PLAYER_START_Y: i64 = -75_000_000_000;

/// Speed of a new player, in world units per second.
pub const PLAYER_SPEED: u32 = 100;

/// Lives of a new player.
pub const PLAYER_LIVES: u32 = 3;

/// Position of the first life icon along x, in sub-units: a tenth of the
/// playfield's width.
pub const LIFE_ICONS_LEFT: i64 = 64_000_000_000;

/// Height of the row of life icons, in sub-units: an eighth of the
/// playfield's height, and twenty-four units more.
pub const LIFE_ICONS_Y: i64 = 84_000_000_000;

/// Distance along x from one life icon to the next, in sub-units.
pub const LIFE_ICON_SPACING: i64 = 20_000_000_000;

/// The column of a shield in which its `j`-th segment stands. The outer
/// columns hold three segments and the inner ones two.
pub open spec fn segment_column(j: int) -> int {
    if j < 3 {
        0
    } else if j < 5 {
        1
    } else if j < 7 {
        2
    } else {
        3
    }
}

/// The row of a shield in which its `j`-th segment stands, counted from the
/// top.
pub open spec fn segment_row(j: int) -> int {
    if j < 3 {
        j
    } else if j < 5 {
        j - 3
    } else if j < 7 {
        j - 5
    } else {
        j - 7
    }
}

/// The shape of the `j`-th segment of a shield: the outer columns begin
/// with a segment of the second corner shape, the inner ones end with one of
/// the first, and all other segments are blocks.
pub open spec fn segment_shape(j: int) -> ShieldShape {
    if segment_row(j) == 0 && (segment_column(j) == 0 || segment_column(j) == 3) {
        ShieldShape::Corner2
    } else if segment_row(j) == 1 && (segment_column(j) == 1 || segment_column(j) == 2) {
        ShieldShape::Corner1
    } else {
        ShieldShape::Block
    }
}

/// Whether `part` is the `j`-th segment of the `i`-th shield as set-up
/// creates it: at full health, at its place in the layout, with the textures
/// of its shape, and flipped in the right half of the shield.
pub open spec fn is_fresh_segment(part: ShieldPart, i: int, j: int) -> bool {
    &&& part.health == 4
    &&& part.textures@ == shape_textures(segment_shape(j))
    &&& part.x == SHIELD_LEFT + segment_column(j) * SEGMENT_SPACING + i * SHIELD_SPACING
    &&& part.y == SHIELD_TOP - segment_row(j) * SEGMENT_SPACING
    &&& part.mirrored == (segment_column(j) >= 2)
}

/// Creates the `j`-th segment of the `i`-th shield.
pub fn fresh_segment(i: usize, j: usize) -> (part: ShieldPart)
    requires
        i < SHIELD_NUMS,
        j < SHIELD_SEGMENTS,
    ensures
        is_fresh_segment(part, i as int, j as int),
        part.wf(),
{
    let column: i64 = if j < 3 {
        0
    } else if j < 5 {
        1
    } else if j < 7 {
        2
    } else {
        3
    };
    let row: i64 = if j < 3 {
        j as i64
    } else if j < 5 {
        j as i64 - 3
    } else if j < 7 {
        j as i64 - 5
    } else {
        j as i64 - 7
    };
    let shape = if row == 0 && (column == 0 || column == 3) {
        ShieldShape::Corner2
    } else if row == 1 && (column == 1 || column == 2) {
        ShieldShape::Corner1
    } else {
        ShieldShape::Block
    };
    ShieldPart {
        health: 4,
        textures: textures_of(shape),
        x: SHIELD_LEFT + column * SEGMENT_SPACING + (i as i64) * SHIELD_SPACING,
        y: SHIELD_TOP - row * SEGMENT_SPACING,
        mirrored: column >= 2,
    }
}

/// What the set-up of the shields does: after the segments that were there
/// come the segments of each shield in turn. Nothing else changes.
pub open spec fn setup_shields_post(pre: Game, post: Game) -> bool {
    &&& post.shields@.len() == pre.shields@.len() + SHIELD_NUMS * SHIELD_SEGMENTS
    &&& forall|k: int| 0 <= k < pre.shields@.len() ==> post.shields@[k] == pre.shields@[k]
    &&& forall|i: int, j: int|
        0 <= i < SHIELD_NUMS && 0 <= j < SHIELD_SEGMENTS ==> is_fresh_segment(
            #[trigger] post.shields@[pre.shields@.len() + i * SHIELD_SEGMENTS + j],
            i,
            j,
        )
    &&& post == (Game { shields: post.shields, ..pre })
}

/// Adds the shields to the game, as [`setup_shields_post`] says. Every new
/// segment is well formed.
pub fn setup_shields(game: &mut Game)
    ensures
        setup_shields_post(*old(game), *final(game)),
        old(game).wf() ==> final(game).wf(),
{
    let ghost before = game.shields@;
    let mut i: usize = 0;
    while i < SHIELD_NUMS
        invariant
            i <= SHIELD_NUMS,
            game.shields@.len() == before.len() + i * SHIELD_SEGMENTS,
            forall|k: int| 0 <= k < before.len() ==> game.shields@[k] == before[k],
            forall|a: int, b: int|
                0 <= a < i && 0 <= b < SHIELD_SEGMENTS ==> is_fresh_segment(
                    #[trigger] game.shields@[before.len() + a * SHIELD_SEGMENTS + b],
                    a,
                    b,
                ),
            *game == (Game { shields: game.shields, ..*old(game) }),
            before == old(game).shields@,
            old(game).shields_ok() ==> game.shields_ok(),
        decreases SHIELD_NUMS - i,
    {
        let mut j: usize = 0;
        while j < SHIELD_SEGMENTS
            invariant
                i < SHIELD_NUMS,
                j <= SHIELD_SEGMENTS,
                game.shields@.len() == before.len() + i * SHIELD_SEGMENTS + j,
                forall|k: int| 0 <= k < before.len() ==> game.shields@[k] == before[k],
                forall|a: int, b: int|
                    (0 <= a < i && 0 <= b < SHIELD_SEGMENTS) || (a == i && 0 <= b < j)
                        ==> is_fresh_segment(
                        #[trigger] game.shields@[before.len() + a * SHIELD_SEGMENTS + b],
                        a,
                        b,
                    ),
                *game == (Game { shields: game.shields, ..*old(game) }),
                before == old(game).shields@,
                old(game).shields_ok() ==> game.shields_ok(),
            decreases SHIELD_SEGMENTS - j,
        {
            let part = fresh_segment(i, j);
            game.shields.push(part);
            j += 1;
        }
        i += 1;
    }
}

/// The `k`-th invader of a fresh formation. The rows that cannot fire come
/// first, from the bottom up and from left to right, a bottom invader and
/// the middle invader above it in turn; the rows that can fire follow.
pub open spec fn formation_invader(k: int) -> Invader {
    let decoys = INVADER_DECOY_ROWS * (2 * INVADER_COLS);
    if k < decoys {
        let row = k / (2 * INVADER_COLS as int);
        let col = (k % (2 * INVADER_COLS as int)) / 2;
        Invader {
            x: (FORMATION_LEFT + col * INVADER_SPACING) as i64,
            y: if k % 2 == 0 {
                (BOTTOM_ROWS_BASE + row * INVADER_SPACING) as i64
            } else {
                (MIDDLE_ROWS_BASE + row * INVADER_SPACING) as i64
            },
            texture: if k % 2 == 0 {
                Texture::Invader1
            } else {
                Texture::Invader2
            },
            shooter: None,
        }
    } else {
        let row = (k - decoys) / (INVADER_COLS as int);
        let col = (k - decoys) % (INVADER_COLS as int);
        Invader {
            x: (FORMATION_LEFT + col * INVADER_SPACING) as i64,
            y: (TOP_ROWS_BASE + row * INVADER_SPACING) as i64,
            texture: Texture::Invader3,
            shooter: Some(Shooter {  }),
        }
    }
}

/// What the set-up of the formation does: a fresh formation comes after
/// the invaders that were there, heading right at its starting speed.
/// Nothing else changes.
pub open spec fn setup_invaders_post(pre: Game, post: Game) -> bool {
    &&& post.invaders@.len() == pre.invaders@.len() + FORMATION_SIZE
    &&& forall|k: int| 0 <= k < pre.invaders@.len() ==> post.invaders@[k] == pre.invaders@[k]
    &&& forall|k: int|
        0 <= k < FORMATION_SIZE ==> #[trigger] post.invaders@[pre.invaders@.len() + k]
            == formation_invader(k)
    &&& post == (Game {
        invaders: post.invaders,
        direction: InvaderDirection::Right,
        speed: InvaderSpeed(INVADER_SPEED),
        ..pre
    })
}

/// Adds a fresh formation to the game, as [`setup_invaders_post`] says.
pub fn setup_invaders(game: &mut Game)
    ensures
        setup_invaders_post(*old(game), *final(game)),
{
    let ghost before = game.invaders@;
    let mut row: usize = 0;
    while row < INVADER_DECOY_ROWS
        invariant
            row <= INVADER_DECOY_ROWS,
            game.invaders@.len() == before.len() + row * 22,
            forall|k: int| 0 <= k < before.len() ==> game.invaders@[k] == before[k],
            forall|k: int|
                0 <= k < row * 22 ==> #[trigger] game.invaders@[before.len() + k]
                    == formation_invader(k),
            *game == (Game { invaders: game.invaders, ..*old(game) }),
            before == old(game).invaders@,
        decreases INVADER_DECOY_ROWS - row,
    {
        let mut col: usize = 0;
        while col < INVADER_COLS
            invariant
                row < INVADER_DECOY_ROWS,
                col <= INVADER_COLS,
                game.invaders@.len() == before.len() + row * 22 + col * 2,
                forall|k: int| 0 <= k < before.len() ==> game.invaders@[k] == before[k],
                forall|k: int|
                    0 <= k < row * 22 + col * 2 ==> #[trigger] game.invaders@[before.len() + k]
                        == formation_invader(k),
                *game == (Game { invaders: game.invaders, ..*old(game) }),
                before == old(game).invaders@,
            decreases INVADER_COLS - col,
        {
            let x: i64 = FORMATION_LEFT + (col as i64) * INVADER_SPACING;
            game.invaders.push(
                Invader {
                    x,
                    y: BOTTOM_ROWS_BASE + (row as i64) * INVADER_SPACING,
                    texture: Texture::Invader1,
                    shooter: None,
                },
            );
            game.invaders.push(
                Invader {
                    x,
                    y: MIDDLE_ROWS_BASE + (row as i64) * INVADER_SPACING,
                    texture: Texture::Invader2,
                    shooter: None,
                },
            );
            col += 1;
        }
        row += 1;
    }
    let mut row: usize = 0;
    while row < INVADER_SHOOTER_ROWS
        invariant
            row <= INVADER_SHOOTER_ROWS,
            game.invaders@.len() == before.len() + 44 + row * 11,
            forall|k: int| 0 <= k < before.len() ==> game.invaders@[k] == before[k],
            forall|k: int|
                0 <= k < 44 + row * 11 ==> #[trigger] game.invaders@[before.len() + k]
                    == formation_invader(k),
            *game == (Game { invaders: game.invaders, ..*old(game) }),
            before == old(game).invaders@,
        decreases INVADER_SHOOTER_ROWS - row,
    {
        let mut col: usize = 0;
        while col < INVADER_COLS
            invariant
                row < INVADER_SHOOTER_ROWS,
                col <= INVADER_COLS,
                game.invaders@.len() == before.len() + 44 + row * 11 + col,
                forall|k: int| 0 <= k < before.len() ==> game.invaders@[k] == before[k],
                forall|k: int|
                    0 <= k < 44 + row * 11 + col ==> #[trigger] game.invaders@[before.len() + k]
                        == formation_invader(k),
                *game == (Game { invaders: game.invaders, ..*old(game) }),
                before == old(game).invaders@,
            decreases INVADER_COLS - col,
        {
            game.invaders.push(
                Invader {
                    x: FORMATION_LEFT + (col as i64) * INVADER_SPACING,
                    y: TOP_ROWS_BASE + (row as i64) * INVADER_SPACING,
                    texture: Texture::Invader3,
                    shooter: Some(Shooter {  }),
                },
            );
            col += 1;
        }
        row += 1;
    }
    game.direction = InvaderDirection::Right;
    game.speed = InvaderSpeed(INVADER_SPEED);
}

/// The player that set-up creates for the given identity.
pub open spec fn fresh_player(id: PlayerID) -> Player {
    Player {
        speed: PLAYER_SPEED,
        lives: PLAYER_LIVES,
        score: 0,
        id,
        is_hit: false,
        x: PLAYER_START_X,
        y: PLAYER_START_Y,
        texture: Texture::Player,
    }
}

/// Adds a new player with the given identity, after the players that were
/// there. Nothing else changes.
pub fn spawn_player(game: &mut Game, id: PlayerID)
    ensures
        final(game).players@ == old(game).players@.push(fresh_player(id)),
        *final(game) == (Game { players: final(game).players, ..*old(game) }),
{
    game.players.push(
        Player {
            speed: PLAYER_SPEED,
            lives: PLAYER_LIVES,
            score: 0,
            id,
            is_hit: false,
            x: PLAYER_START_X,
            y: PLAYER_START_Y,
            texture: Texture::Player,
        },
    );
}

/// What the set-up of the player does: a new player comes after the
/// players that were there, and it is the fresh player of the identity that
/// it carries. Nothing else changes.
pub open spec fn setup_player_post(pre: Game, post: Game) -> bool {
    &&& post.players@.len() == pre.players@.len() + 1
    &&& post.players@ == pre.players@.push(fresh_player(post.players@.last().id))
    &&& post == (Game { players: post.players, ..pre })
}

/// Adds a new player under an identity drawn at random. Whatever the draw,
/// [`setup_player_post`] holds.
pub fn setup_player(game: &mut Game)
    ensures
        setup_player_post(*old(game), *final(game)),
{
    let id = PlayerID { id: random_u32() };
    spawn_player(game, id);
}

/// What the set-up of the score does: a display of the first player's
/// score comes after the displays that were there. Nothing else changes.
pub open spec fn setup_player_score_post(pre: Game, post: Game) -> bool {
    &&& post.scores@ == pre.scores@.push(
        PlayerScore { player_id: pre.players@[0].id, shown: pre.players@[0].score },
    )
    &&& post == (Game { scores: post.scores, ..pre })
}

/// Adds the score display of the first player, as
/// [`setup_player_score_post`] says. The game must hold a player.
pub fn setup_player_score(game: &mut Game)
    requires
        old(game).players@.len() > 0,
    ensures
        setup_player_score_post(*old(game), *final(game)),
{
    let player = game.players[0];
    game.scores.push(PlayerScore { player_id: player.id, shown: player.score });
}

/// The `i`-th icon of the row that shows the lives of the player `id`.
pub open spec fn life_icon(id: PlayerID, i: int) -> PlayerLife {
    PlayerLife {
        player_id: id,
        x: shifted(LIFE_ICONS_LEFT as int, i * LIFE_ICON_SPACING) as i64,
        y: LIFE_ICONS_Y,
    }
}

/// What the set-up of the lives does: one icon for each life of the first
/// player comes after the icons that were there, and a restart ends: from
/// `Restarting` the game goes to `Playing`, and from any other state it
/// stays where it is. Nothing else changes.
pub open spec fn setup_player_lives_post(pre: Game, post: Game) -> bool {
    &&& post.lives@.len() == pre.lives@.len() + pre.players@[0].lives
    &&& forall|k: int| 0 <= k < pre.lives@.len() ==> post.lives@[k] == pre.lives@[k]
    &&& forall|i: int|
        0 <= i < pre.players@[0].lives ==> #[trigger] post.lives@[pre.lives@.len() + i]
            == life_icon(pre.players@[0].id, i)
    &&& post == (Game {
        lives: post.lives,
        game_state: if pre.game_state == GameState::Restarting {
            GameState::Playing
        } else {
            pre.game_state
        },
        ..pre
    })
}

/// Adds the life icons of the first player, as [`setup_player_lives_post`]
/// says. The game must hold a player.
pub fn setup_player_lives(game: &mut Game)
    requires
        old(game).players@.len() > 0,
    ensures
        setup_player_lives_post(*old(game), *final(game)),
{
    let player = game.players[0];
    let ghost before = game.lives@;
    let mut i: u32 = 0;
    while i < player.lives
        invariant
            i <= player.lives,
            game.lives@.len() == before.len() + i,
            forall|k: int| 0 <= k < before.len() ==> game.lives@[k] == before[k],
            forall|k: int|
                0 <= k < i ==> #[trigger] game.lives@[before.len() + k] == life_icon(player.id, k),
            *game == (Game { lives: game.lives, ..*old(game) }),
            before == old(game).lives@,
        decreases player.lives - i,
    {
        let x = shift(LIFE_ICONS_LEFT, (i as i128) * (LIFE_ICON_SPACING as i128));
        game.lives.push(PlayerLife { player_id: player.id, x, y: LIFE_ICONS_Y });
        i += 1;
    }
    if game.game_state == GameState::Restarting {
        game.game_state = GameState::Playing;
    }
}

/// What the initialization sequence does: it sets up, in this order, the
/// player, the score display, the life icons, the shields and the formation,
/// each as its own rule says.
pub open spec fn setup_game_post(pre: Game, post: Game) -> bool {
    exists|a: Game, b: Game, c: Game, d: Game|
        {
            &&& #[trigger] setup_player_post(pre, a)
            &&& #[trigger] setup_player_score_post(a, b)
            &&& #[trigger] setup_player_lives_post(b, c)
            &&& #[trigger] setup_shields_post(c, d)
            &&& #[trigger] setup_invaders_post(d, post)
        }
}

/// Runs the initialization sequence, as [`setup_game_post`] says. It runs
/// once on a new game, and once each time the game restarts. Afterwards the
/// game holds a player, and it is `Playing` if it was `Restarting`.
pub fn setup_game(game: &mut Game)
    ensures
        setup_game_post(*old(game), *final(game)),
        final(game).players@.len() > 0,
        final(game).game_state == (if old(game).game_state == GameState::Restarting {
            GameState::Playing
        } else {
            old(game).game_state
        }),
        old(game).wf() ==> final(game).wf(),
{
    setup_player(game);
    let ghost a = *game;
    setup_player_score(game);
    let ghost b = *game;
    setup_player_lives(game);
    let ghost c = *game;
    setup_shields(game);
    let ghost d = *game;
    setup_invaders(game);
    assert(setup_player_post(*old(game), a) && setup_player_score_post(a, b)
        && setup_player_lives_post(b, c) && setup_shields_post(c, d) && setup_invaders_post(
        d,
        *game,
    ));
}

} // verus!
