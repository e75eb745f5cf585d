//! The displays of score and lives, which follow the players' counters.

use crate::collision::player_named;
use crate::components::Player;
use crate::components::PlayerLife;
use crate::components::PlayerScore;
use crate::game::Game;
use crate::search::last_index;
use vstd::prelude::*;

verus! {

/// A score display once it has caught up with the players: it shows the
/// score of the last player that goes by its identity, and stays as it is if
/// there is none.
pub open spec fn synced_score(d: PlayerScore, players: Seq<Player>) -> PlayerScore {
    match last_index(players, player_named(d.player_id), players.len() as int) {
        Some(i) => PlayerScore { shown: players[i].score, ..d },
        None => d,
    }
}

/// What the score sync does: every score display catches up with the
/// players. Nothing else changes.
pub open spec fn update_player_score_post(pre: Game, post: Game) -> bool {
    &&& post.scores@.len() == pre.scores@.len()
    &&& forall|j: int|
        0 <= j < pre.scores@.len() ==> #[trigger] post.scores@[j] == synced_score(
            pre.scores@[j],
            pre.players@,
        )
    &&& post == (Game { scores: post.scores, ..pre })
}

/// Brings the score displays up to date, as [`update_player_score_post`]
/// says.
pub fn update_player_score(game: &mut Game)
    ensures
        update_player_score_post(*old(game), *final(game)),
{
    let mut j: usize = 0;
    while j < game.scores.len()
        invariant
            j <= game.scores@.len(),
            game.scores@.len() == old(game).scores@.len(),
            forall|k: int|
                0 <= k < j ==> #[trigger] game.scores@[k] == synced_score(
                    old(game).scores@[k],
                    old(game).players@,
                ),
            forall|k: int|
                j <= k < game.scores@.len() ==> #[trigger] game.scores@[k] == old(game).scores@[k],
            *game == (Game { scores: game.scores, ..*old(game) }),
        decreases game.scores@.len() - j,
    {
        let d = game.scores[j];
        let mut shown = d.shown;
        let mut i: usize = 0;
        while i < game.players.len()
            invariant
                i <= game.players@.len(),
                shown == match last_index(game.players@, player_named(d.player_id), i as int) {
                    Some(k) => game.players@[k].score,
                    None => d.shown,
                },
            decreases game.players@.len() - i,
        {
            if game.players[i].id.id == d.player_id.id {
                shown = game.players[i].score;
            }
            i += 1;
        }
        game.scores.set(j, PlayerScore { player_id: d.player_id, shown });
        j += 1;
    }
}

/// The first `n` life icons, without those that the player `p` has lost: an
/// icon of that player goes when as many icons as the player has lives, of
/// whatever player, stand before it.
pub open spec fn trimmed_lives(lives: Seq<PlayerLife>, p: Player, n: int) -> Seq<PlayerLife>
    decreases n,
{
    if n <= 0 {
        Seq::empty()
    } else {
        let before = trimmed_lives(lives, p, n - 1);
        if n - 1 >= p.lives && lives[n - 1].player_id == p.id {
            before
        } else {
            before.push(lives[n - 1])
        }
    }
}

/// What the lives sync does: the icons of the lives that the first player
/// has lost are removed. Nothing else changes.
pub open spec fn update_player_lives_post(pre: Game, post: Game) -> bool {
    &&& post.lives@ == trimmed_lives(pre.lives@, pre.players@[0], pre.lives@.len() as int)
    &&& post == (Game { lives: post.lives, ..pre })
}

/// Brings the life icons up to date, as [`update_player_lives_post`] says.
/// The game must hold a player.
pub fn update_player_lives(game: &mut Game)
    requires
        old(game).players@.len() > 0,
    ensures
        update_player_lives_post(*old(game), *final(game)),
{
    let player = game.players[0];
    let mut kept: Vec<PlayerLife> = Vec::new();
    let mut i: usize = 0;
    while i < game.lives.len()
        invariant
            i <= game.lives@.len(),
            kept@ == trimmed_lives(game.lives@, player, i as int),
            *game == *old(game),
        decreases game.lives@.len() - i,
    {
        let life = game.lives[i];
        if !(i >= player.lives as usize && life.player_id.id == player.id.id) {
            kept.push(life);
        }
        i += 1;
    }
    game.lives = kept;
}

} // verus!
