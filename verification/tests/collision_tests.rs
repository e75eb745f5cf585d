use space_invaders::collision::add_score;
use space_invaders::collision::bullet_collision_detection;
use space_invaders::collision::find_invader;
use space_invaders::collision::find_player;
use space_invaders::collision::find_player_by_id;
use space_invaders::collision::find_shield;
use space_invaders::collision::hit_player;
use space_invaders::collision::hit_shield;
use space_invaders::collision::invader_bullet_collision;
use space_invaders::collision::player_bullet_collision;
use space_invaders::collision::BOTTOM_BOUND;
use space_invaders::collision::TOP_BOUND;
use space_invaders::components::textures_of;
use space_invaders::components::Bullet;
use space_invaders::components::Invader;
use space_invaders::components::InvaderBullet;
use space_invaders::components::Player;
use space_invaders::components::PlayerBullet;
use space_invaders::components::PlayerID;
use space_invaders::components::ShieldPart;
use space_invaders::enums::InvaderBulletType;
use space_invaders::enums::ShieldShape;
use space_invaders::enums::Texture;
use space_invaders::enums::Wear;
use space_invaders::game::Game;
use space_invaders::geometry::touch;
use space_invaders::geometry::PairKind;
use space_invaders::geometry::Vec2;
use space_invaders::geometry::UNIT;
use space_invaders::resources::GameState;

fn shield_at(x: i64, y: i64, health: u32) -> ShieldPart {
    ShieldPart { health, textures: textures_of(ShieldShape::Block), x, y, mirrored: false }
}

fn invader_at(x: i64, y: i64) -> Invader {
    Invader { x, y, texture: Texture::Invader1, shooter: None }
}

fn player_at(x: i64, y: i64, lives: u32, id: u32) -> Player {
    Player {
        speed: 100,
        lives,
        score: 0,
        id: PlayerID { id },
        is_hit: false,
        x,
        y,
        texture: Texture::Player,
    }
}

fn player_bullet_at(x: i64, y: i64, id: u32) -> PlayerBullet {
    PlayerBullet {
        player_id: PlayerID { id },
        bullet: Bullet { velocity: Vec2 { x: 0, y: 100 }, x, y },
    }
}

fn invader_bullet_at(x: i64, y: i64, bullet_type: InvaderBulletType) -> InvaderBullet {
    InvaderBullet { bullet_type, bullet: Bullet { velocity: Vec2 { x: 0, y: -100 }, x, y } }
}

#[test]
fn segment_with_two_points_survives_one_hit() {
    let mut game = Game::new();
    game.shields.push(shield_at(10 * UNIT, -40 * UNIT, 2));
    game.player_bullets.push(player_bullet_at(10 * UNIT, -40 * UNIT, 1));
    bullet_collision_detection(&mut game);
    assert_eq!(game.shields.len(), 1);
    assert_eq!(game.shields[0].health, 1);
    assert_eq!(game.shields[0].variant_index(), 0);
    assert_eq!(
        game.shields[0].current_texture(),
        Texture::Shield(ShieldShape::Block, Wear::HeavilyDamaged)
    );
    assert_eq!(game.shields[0].x, 10 * UNIT);
    assert_eq!(game.shields[0].y, -40 * UNIT);
    assert!(game.player_bullets.is_empty());
}

#[test]
fn segment_with_one_point_leaves_in_the_same_step() {
    let mut game = Game::new();
    game.shields.push(shield_at(0, 0, 1));
    game.shields.push(shield_at(50 * UNIT, 0, 3));
    game.player_bullets.push(player_bullet_at(UNIT, -UNIT, 1));
    bullet_collision_detection(&mut game);
    assert_eq!(game.shields.len(), 1);
    assert_eq!(game.shields[0], shield_at(50 * UNIT, 0, 3));
    assert!(game.player_bullets.is_empty());
}

#[test]
fn second_bullet_passes_where_the_first_removed_the_segment() {
    let mut game = Game::new();
    game.shields.push(shield_at(0, 0, 1));
    game.player_bullets.push(player_bullet_at(0, 0, 1));
    game.player_bullets.push(player_bullet_at(0, UNIT, 1));
    bullet_collision_detection(&mut game);
    assert!(game.shields.is_empty());
    assert_eq!(game.player_bullets, vec![player_bullet_at(0, UNIT, 1)]);
}

#[test]
fn bolt_at_the_player_costs_a_life_and_spares_the_shield() {
    let mut game = Game::new();
    game.players.push(player_at(0, -75 * UNIT, 3, 9));
    game.shields.push(shield_at(0, -75 * UNIT, 4));
    game.invader_bullets.push(invader_bullet_at(0, -75 * UNIT, InvaderBulletType::Bolt));
    bullet_collision_detection(&mut game);
    assert_eq!(game.players[0].lives, 2);
    assert!(game.players[0].is_hit);
    assert_eq!(game.shields, vec![shield_at(0, -75 * UNIT, 4)]);
    assert!(game.invader_bullets.is_empty());
    assert_eq!(game.game_state, GameState::PlayerHit);
}

#[test]
fn bullet_at_the_player_wears_the_shield_there_and_hits_the_player() {
    let mut game = Game::new();
    game.players.push(player_at(0, -75 * UNIT, 3, 9));
    game.shields.push(shield_at(0, -75 * UNIT, 4));
    game.invader_bullets.push(invader_bullet_at(0, -75 * UNIT, InvaderBulletType::Bullet));
    bullet_collision_detection(&mut game);
    assert_eq!(game.players[0].lives, 2);
    assert!(game.players[0].is_hit);
    assert_eq!(game.shields[0].health, 3);
    assert!(game.invader_bullets.is_empty());
    assert_eq!(game.game_state, GameState::PlayerHit);
}

#[test]
fn bullet_on_a_shield_away_from_the_player_only_wears_the_shield() {
    let mut game = Game::new();
    game.players.push(player_at(0, -75 * UNIT, 3, 9));
    game.shields.push(shield_at(0, -40 * UNIT, 1));
    game.invader_bullets.push(invader_bullet_at(0, -33 * UNIT, InvaderBulletType::Bullet));
    bullet_collision_detection(&mut game);
    assert_eq!(game.players[0].lives, 3);
    assert!(game.shields.is_empty());
    assert!(game.invader_bullets.is_empty());
    assert_eq!(game.game_state, GameState::Playing);
}

#[test]
fn later_hit_on_another_player_does_not_take_the_end_of_the_game_back() {
    let mut game = Game::new();
    game.players.push(player_at(0, 0, 1, 1));
    game.players.push(player_at(50 * UNIT, 0, 3, 2));
    game.invader_bullets.push(invader_bullet_at(0, 0, InvaderBulletType::Bolt));
    game.invader_bullets.push(invader_bullet_at(50 * UNIT, 0, InvaderBulletType::Bolt));
    bullet_collision_detection(&mut game);
    assert_eq!(game.players[0].lives, 0);
    assert_eq!(game.players[1].lives, 2);
    assert_eq!(game.game_state, GameState::GameOver);
}

#[test]
fn hit_on_the_last_life_ends_the_game() {
    let mut game = Game::new();
    game.players.push(player_at(0, 0, 1, 9));
    game.invader_bullets.push(invader_bullet_at(7 * UNIT, -7 * UNIT, InvaderBulletType::Bullet));
    bullet_collision_detection(&mut game);
    assert_eq!(game.players[0].lives, 0);
    assert_eq!(game.game_state, GameState::GameOver);
    assert!(game.invader_bullets.is_empty());
}

#[test]
fn each_hit_costs_exactly_one_life() {
    let mut game = Game::new();
    game.players.push(player_at(0, 0, 3, 9));
    game.invader_bullets.push(invader_bullet_at(0, 0, InvaderBulletType::Bullet));
    game.invader_bullets.push(invader_bullet_at(0, UNIT, InvaderBulletType::Bolt));
    bullet_collision_detection(&mut game);
    assert_eq!(game.players[0].lives, 1);
    assert_eq!(game.game_state, GameState::PlayerHit);
}

#[test]
fn player_without_lives_is_not_hit_again() {
    let mut game = Game::new();
    game.players.push(player_at(0, 0, 1, 9));
    game.invader_bullets.push(invader_bullet_at(0, 0, InvaderBulletType::Bolt));
    game.invader_bullets.push(invader_bullet_at(0, UNIT, InvaderBulletType::Bolt));
    bullet_collision_detection(&mut game);
    assert_eq!(game.players[0].lives, 0);
    assert_eq!(game.game_state, GameState::GameOver);
    assert_eq!(game.invader_bullets, vec![invader_bullet_at(0, UNIT, InvaderBulletType::Bolt)]);
}

#[test]
fn player_bullet_destroys_the_invader_and_scores_for_its_owner() {
    let mut game = Game::new();
    game.players.push(player_at(0, -75 * UNIT, 3, 4));
    game.players.push(player_at(20 * UNIT, -75 * UNIT, 3, 5));
    game.invaders.push(invader_at(-80 * UNIT, 6 * UNIT));
    game.invaders.push(invader_at(-64 * UNIT, 6 * UNIT));
    game.player_bullets.push(player_bullet_at(-63 * UNIT, 4 * UNIT, 5));
    bullet_collision_detection(&mut game);
    assert_eq!(game.invaders, vec![invader_at(-80 * UNIT, 6 * UNIT)]);
    assert_eq!(game.players[0].score, 0);
    assert_eq!(game.players[1].score, 1);
    assert!(game.player_bullets.is_empty());
    assert_eq!(game.game_state, GameState::Playing);
}

#[test]
fn shield_comes_before_invader_for_a_player_bullet() {
    let mut game = Game::new();
    game.players.push(player_at(0, -75 * UNIT, 3, 4));
    game.shields.push(shield_at(0, 0, 4));
    game.invaders.push(invader_at(0, 0));
    let gone = player_bullet_collision(&mut game, player_bullet_at(0, 0, 4));
    assert!(gone);
    assert_eq!(game.shields[0].health, 3);
    assert_eq!(game.invaders.len(), 1);
    assert_eq!(game.players[0].score, 0);
}

#[test]
fn bullet_that_touches_nothing_flies_on() {
    let mut game = Game::new();
    game.shields.push(shield_at(0, 0, 4));
    game.invaders.push(invader_at(0, 20 * UNIT));
    game.players.push(player_at(0, -75 * UNIT, 3, 1));
    game.player_bullets.push(player_bullet_at(4 * UNIT, 0, 1));
    game.invader_bullets.push(invader_bullet_at(8 * UNIT, -75 * UNIT, InvaderBulletType::Bolt));
    bullet_collision_detection(&mut game);
    assert_eq!(game.player_bullets, vec![player_bullet_at(4 * UNIT, 0, 1)]);
    assert_eq!(
        game.invader_bullets,
        vec![invader_bullet_at(8 * UNIT, -75 * UNIT, InvaderBulletType::Bolt)]
    );
    assert_eq!(game.shields[0].health, 4);
    assert_eq!(game.players[0].lives, 3);
}

#[test]
fn bullets_are_culled_beyond_the_screen_bounds() {
    let mut game = Game::new();
    game.player_bullets.push(player_bullet_at(0, 95 * UNIT, 1));
    game.player_bullets.push(player_bullet_at(0, 95 * UNIT + 1, 1));
    game.invader_bullets.push(invader_bullet_at(0, -95 * UNIT, InvaderBulletType::Bullet));
    game.invader_bullets.push(invader_bullet_at(0, -95 * UNIT - 1, InvaderBulletType::Bullet));
    bullet_collision_detection(&mut game);
    assert_eq!(game.player_bullets, vec![player_bullet_at(0, 95 * UNIT, 1)]);
    assert_eq!(
        game.invader_bullets,
        vec![invader_bullet_at(0, -95 * UNIT, InvaderBulletType::Bullet)]
    );
}

#[test]
fn screen_bounds_are_a_quarter_of_the_height_less_the_margin() {
    assert_eq!(TOP_BOUND, 95 * UNIT);
    assert_eq!(BOTTOM_BOUND, -95 * UNIT);
}

#[test]
fn resolution_on_an_empty_game_changes_nothing() {
    let mut game = Game::new();
    bullet_collision_detection(&mut game);
    assert!(game.shields.is_empty());
    assert!(game.invaders.is_empty());
    assert!(game.players.is_empty());
    assert!(game.player_bullets.is_empty());
    assert!(game.invader_bullets.is_empty());
    assert_eq!(game.game_state, GameState::Playing);
}

#[test]
fn point_for_an_unknown_owner_is_lost() {
    let mut game = Game::new();
    game.players.push(player_at(0, -75 * UNIT, 3, 4));
    game.invaders.push(invader_at(0, 0));
    game.player_bullets.push(player_bullet_at(0, 0, 77));
    bullet_collision_detection(&mut game);
    assert!(game.invaders.is_empty());
    assert_eq!(game.players[0].score, 0);
}

#[test]
fn score_stops_at_the_largest_value() {
    let mut players = vec![player_at(0, 0, 3, 1)];
    players[0].score = u32::MAX - 1;
    add_score(&mut players, PlayerID { id: 1 });
    assert_eq!(players[0].score, u32::MAX);
    add_score(&mut players, PlayerID { id: 1 });
    assert_eq!(players[0].score, u32::MAX);
}

#[test]
fn score_goes_to_the_first_player_of_that_identity() {
    let mut players = vec![player_at(0, 0, 3, 1), player_at(0, 0, 3, 2), player_at(0, 0, 3, 2)];
    add_score(&mut players, PlayerID { id: 2 });
    assert_eq!(players[0].score, 0);
    assert_eq!(players[1].score, 1);
    assert_eq!(players[2].score, 0);
    assert_eq!(find_player_by_id(&players, PlayerID { id: 2 }), Some(1));
    assert_eq!(find_player_by_id(&players, PlayerID { id: 3 }), None);
}

#[test]
fn touch_compares_each_axis_with_its_threshold() {
    assert!(touch(0, 0, 4 * UNIT - 1, 4 * UNIT - 1, PairKind::PlayerBulletShield));
    assert!(!touch(0, 0, 4 * UNIT, 0, PairKind::PlayerBulletShield));
    assert!(!touch(0, 0, 0, -4 * UNIT, PairKind::PlayerBulletInvader));
    assert!(touch(0, 0, -8 * UNIT + 1, 8 * UNIT - 1, PairKind::InvaderBulletShield));
    assert!(!touch(0, 0, 8 * UNIT, 0, PairKind::InvaderBulletPlayer));
    assert!(touch(3 * UNIT, 3 * UNIT, 0, 0, PairKind::PlayerBulletInvader));
    assert!(touch(5 * UNIT, 5 * UNIT, 0, 0, PairKind::InvaderBulletPlayer));
    assert!(!touch(5 * UNIT, 5 * UNIT, 0, 0, PairKind::PlayerBulletShield));
}

#[test]
fn touch_holds_at_the_ends_of_the_coordinates() {
    assert!(!touch(i64::MIN, 0, i64::MAX, 0, PairKind::InvaderBulletPlayer));
    assert!(touch(i64::MAX, i64::MIN, i64::MAX, i64::MIN, PairKind::PlayerBulletShield));
}

#[test]
fn searches_return_the_first_match() {
    let shields = vec![shield_at(100 * UNIT, 0, 4), shield_at(0, 0, 4), shield_at(UNIT, 0, 4)];
    assert_eq!(find_shield(&shields, 0, 0, PairKind::PlayerBulletShield), Some(1));
    assert_eq!(find_shield(&shields, 3 * UNIT, 0, PairKind::PlayerBulletShield), Some(1));
    assert_eq!(find_shield(&shields, 4 * UNIT, 0, PairKind::PlayerBulletShield), Some(2));
    assert_eq!(find_shield(&shields, 50 * UNIT, 0, PairKind::PlayerBulletShield), None);
    let invaders = vec![invader_at(0, 0), invader_at(0, 0)];
    assert_eq!(find_invader(&invaders, 0, 0, PairKind::PlayerBulletInvader), Some(0));
    assert_eq!(find_invader(&Vec::new(), 0, 0, PairKind::PlayerBulletInvader), None);
    let players = vec![player_at(0, 0, 0, 1), player_at(0, 0, 2, 2)];
    assert_eq!(find_player(&players, 0, 0, PairKind::InvaderBulletPlayer), Some(1));
}

#[test]
fn hit_shield_wears_or_removes() {
    let mut shields = vec![shield_at(0, 0, 4), shield_at(6 * UNIT, 0, 1)];
    hit_shield(&mut shields, 0);
    assert_eq!(shields, vec![shield_at(0, 0, 3), shield_at(6 * UNIT, 0, 1)]);
    hit_shield(&mut shields, 1);
    assert_eq!(shields, vec![shield_at(0, 0, 3)]);
}

#[test]
fn hit_player_tells_the_next_state() {
    let mut players = vec![player_at(0, 0, 3, 1)];
    assert_eq!(hit_player(&mut players, 0, GameState::Playing), GameState::PlayerHit);
    assert_eq!(players[0].lives, 2);
    assert!(players[0].is_hit);
    assert_eq!(hit_player(&mut players, 0, GameState::GameOver), GameState::GameOver);
    assert_eq!(players[0].lives, 1);
    assert_eq!(hit_player(&mut players, 0, GameState::PlayerHit), GameState::GameOver);
    assert_eq!(players[0].lives, 0);
}

#[test]
fn invader_bullet_collision_reports_whether_the_bullet_is_gone() {
    let mut game = Game::new();
    game.players.push(player_at(0, 0, 3, 1));
    let far = invader_bullet_at(50 * UNIT, 0, InvaderBulletType::Bullet);
    assert!(!invader_bullet_collision(&mut game, far));
    let near = invader_bullet_at(UNIT, 0, InvaderBulletType::Bullet);
    assert!(invader_bullet_collision(&mut game, near));
    assert_eq!(game.players[0].lives, 2);
    let below = invader_bullet_at(50 * UNIT, -96 * UNIT, InvaderBulletType::Bolt);
    assert!(invader_bullet_collision(&mut game, below));
    assert_eq!(game.players[0].lives, 2);
}

#[test]
fn health_maps_to_a_texture_tier() {
    let mut part = shield_at(0, 0, 1);
    assert_eq!(part.variant_index(), 0);
    assert_eq!(part.current_texture(), Texture::Shield(ShieldShape::Block, Wear::HeavilyDamaged));
    part.health = 2;
    assert_eq!(part.variant_index(), 1);
    assert_eq!(part.current_texture(), Texture::Shield(ShieldShape::Block, Wear::BadlyDamaged));
    part.health = 3;
    assert_eq!(part.variant_index(), 2);
    assert_eq!(part.current_texture(), Texture::Shield(ShieldShape::Block, Wear::SlightlyDamaged));
    part.health = 4;
    assert_eq!(part.variant_index(), 3);
    assert_eq!(part.current_texture(), Texture::Shield(ShieldShape::Block, Wear::Undamaged));
}
