use space_invaders::components::Bullet;
use space_invaders::components::Invader;
use space_invaders::components::InvaderBullet;
use space_invaders::components::Player;
use space_invaders::components::PlayerBullet;
use space_invaders::components::PlayerID;
use space_invaders::components::Shooter;
use space_invaders::enums::InvaderBulletType;
use space_invaders::enums::InvaderDirection;
use space_invaders::enums::Texture;
use space_invaders::game::Game;
use space_invaders::geometry::shift;
use space_invaders::geometry::travel;
use space_invaders::geometry::Vec2;
use space_invaders::geometry::UNIT;
use space_invaders::movement::bullets_movement;
use space_invaders::movement::fly;
use space_invaders::movement::invaders_movement;
use space_invaders::movement::players_movement;
use space_invaders::movement::EDGE_THRESHOLD;
use space_invaders::resources::InvaderSpeed;
use std::time::Duration;

const SECOND: u64 = 1_000_000_000;
const WIDTH: u64 = 640_000_000_000;

fn player_at(x: i64, speed: u32) -> Player {
    Player {
        speed,
        lives: 3,
        score: 0,
        id: PlayerID { id: 1 },
        is_hit: false,
        x,
        y: -75 * UNIT,
        texture: Texture::Player,
    }
}

fn invader_at(x: i64, y: i64) -> Invader {
    Invader { x, y, texture: Texture::Invader3, shooter: Some(Shooter {}) }
}

fn game_with_player(x: i64, speed: u32) -> Game {
    let mut game = Game::new();
    game.players.push(player_at(x, speed));
    game
}

#[test]
fn player_holding_right_for_a_second_covers_its_speed() {
    let mut game = game_with_player(0, 100);
    players_movement(&mut game, WIDTH, false, true, SECOND);
    assert_eq!(game.players[0].x, 100 * UNIT);
    assert_eq!(game.players[0].y, -75 * UNIT);
}

#[test]
fn player_stops_at_the_right_limit() {
    let mut game = game_with_player(0, 100);
    players_movement(&mut game, WIDTH, false, true, 2 * SECOND);
    assert_eq!(game.players[0].x, 110 * UNIT);
    players_movement(&mut game, WIDTH, false, true, SECOND);
    assert_eq!(game.players[0].x, 110 * UNIT);
}

#[test]
fn player_stops_at_the_left_limit() {
    let mut game = game_with_player(-100 * UNIT, 100);
    players_movement(&mut game, WIDTH, true, false, SECOND);
    assert_eq!(game.players[0].x, -110 * UNIT);
}

#[test]
fn player_moves_by_speed_times_time() {
    let mut game = game_with_player(-77_750_000_000, 100);
    players_movement(&mut game, WIDTH, true, false, 16_000_000);
    assert_eq!(game.players[0].x, -79_350_000_000);
    players_movement(&mut game, WIDTH, false, true, 250_000_000);
    assert_eq!(game.players[0].x, -54_350_000_000);
}

#[test]
fn player_without_keys_stays_where_it_is_within_the_limits() {
    let mut game = game_with_player(37 * UNIT, 100);
    players_movement(&mut game, WIDTH, false, false, SECOND);
    assert_eq!(game.players[0].x, 37 * UNIT);
}

#[test]
fn player_beyond_the_limits_is_brought_back_whatever_the_keys() {
    let mut game = game_with_player(500 * UNIT, 100);
    players_movement(&mut game, WIDTH, false, false, SECOND);
    assert_eq!(game.players[0].x, 110 * UNIT);
    let mut game = game_with_player(500 * UNIT, 100);
    players_movement(&mut game, WIDTH, true, false, SECOND);
    assert_eq!(game.players[0].x, 110 * UNIT);
    let mut game = game_with_player(-500 * UNIT, 100);
    players_movement(&mut game, WIDTH, false, true, SECOND);
    assert_eq!(game.players[0].x, -110 * UNIT);
    let mut game = game_with_player(-500 * UNIT, 100);
    players_movement(&mut game, WIDTH, false, false, 0);
    assert_eq!(game.players[0].x, -110 * UNIT);
}

#[test]
fn limits_shrink_with_the_window() {
    let mut game = game_with_player(100 * UNIT, 100);
    players_movement(&mut game, 400 * UNIT as u64, false, false, SECOND);
    assert_eq!(game.players[0].x, 50 * UNIT);
    players_movement(&mut game, 200 * UNIT as u64, true, false, 0);
    assert_eq!(game.players[0].x, 0);
}

#[test]
fn window_too_narrow_for_the_limits_clamps_only_where_a_key_points() {
    let mut game = game_with_player(7 * UNIT, 100);
    players_movement(&mut game, 100 * UNIT as u64, false, false, SECOND);
    assert_eq!(game.players[0].x, 7 * UNIT);
    players_movement(&mut game, 100 * UNIT as u64, false, true, SECOND);
    assert_eq!(game.players[0].x, -25 * UNIT);
    players_movement(&mut game, 100 * UNIT as u64, true, false, SECOND);
    assert_eq!(game.players[0].x, 25 * UNIT);
}

#[test]
fn player_with_both_keys_goes_left_then_right() {
    let mut game = game_with_player(0, 100);
    players_movement(&mut game, WIDTH, true, true, SECOND);
    assert_eq!(game.players[0].x, 0);
    let mut game = game_with_player(-105 * UNIT, 100);
    players_movement(&mut game, WIDTH, true, true, SECOND);
    assert_eq!(game.players[0].x, -10 * UNIT);
}

#[test]
fn limits_follow_the_width_of_the_window() {
    let mut game = game_with_player(0, 100);
    players_movement(&mut game, 800 * UNIT as u64, false, true, 10 * SECOND);
    assert_eq!(game.players[0].x, 150 * UNIT);
    players_movement(&mut game, 800 * UNIT as u64, true, false, 10 * SECOND);
    assert_eq!(game.players[0].x, -150 * UNIT);
}

#[test]
fn player_stays_within_the_limits_over_many_ticks() {
    let mut game = game_with_player(0, 100);
    let keys = [(true, false), (true, true), (false, true), (false, false), (true, false)];
    let mut tick = 0;
    while tick < 200 {
        let (left, right) = keys[tick % keys.len()];
        players_movement(&mut game, WIDTH, left, right, (tick as u64 % 7) * 300_000_000);
        assert!(game.players[0].x >= -110 * UNIT);
        assert!(game.players[0].x <= 110 * UNIT);
        tick += 1;
    }
}

#[test]
fn movement_without_players_changes_nothing() {
    let mut game = Game::new();
    players_movement(&mut game, WIDTH, true, true, SECOND);
    assert!(game.players.is_empty());
}

#[test]
fn bullets_move_along_their_velocity() {
    let mut game = Game::new();
    game.player_bullets.push(PlayerBullet {
        player_id: PlayerID { id: 1 },
        bullet: Bullet { velocity: Vec2 { x: 0, y: 100 }, x: 5 * UNIT, y: -75 * UNIT },
    });
    game.invader_bullets.push(InvaderBullet {
        bullet_type: InvaderBulletType::Bolt,
        bullet: Bullet { velocity: Vec2 { x: 3, y: -100 }, x: 0, y: 68 * UNIT },
    });
    bullets_movement(&mut game, 500_000_000);
    assert_eq!(game.player_bullets[0].bullet.x, 5 * UNIT);
    assert_eq!(game.player_bullets[0].bullet.y, -25 * UNIT);
    assert_eq!(game.player_bullets[0].player_id, PlayerID { id: 1 });
    assert_eq!(game.invader_bullets[0].bullet.x, 1_500_000_000);
    assert_eq!(game.invader_bullets[0].bullet.y, 18 * UNIT);
    assert_eq!(game.invader_bullets[0].bullet_type, InvaderBulletType::Bolt);
}

#[test]
fn bullet_far_off_screen_keeps_moving() {
    let b = Bullet { velocity: Vec2 { x: 0, y: 100 }, x: 0, y: 1000 * UNIT };
    assert_eq!(fly(b, SECOND).y, 1100 * UNIT);
}

#[test]
fn positions_stop_at_the_ends_of_the_coordinates() {
    assert_eq!(shift(i64::MAX - 5, 10), i64::MAX);
    assert_eq!(shift(i64::MIN + 5, -10), i64::MIN);
    assert_eq!(shift(7, -10), -3);
    assert_eq!(travel(250, 16_000_000), 4_000_000_000);
    assert_eq!(travel(-100, SECOND), -100_000_000_000);
    assert_eq!(
        travel(i64::MIN, u64::MAX),
        (i64::MIN as i128) * (u64::MAX as i128)
    );
    let b = Bullet { velocity: Vec2 { x: i32::MAX, y: i32::MIN }, x: 0, y: 0 };
    let moved = fly(b, u64::MAX);
    assert_eq!(moved.x, i64::MAX);
    assert_eq!(moved.y, i64::MIN);
}

#[test]
fn formation_waits_for_its_timer() {
    let mut game = Game::new();
    game.invaders.push(invader_at(0, 68 * UNIT));
    invaders_movement(&mut game, 16_000_000);
    assert_eq!(game.invaders[0], invader_at(0, 68 * UNIT));
    assert_eq!(game.invader_timer.0.elapsed(), Duration::from_millis(16));
    assert!(!game.invader_timer.0.just_finished());
}

#[test]
fn formation_steps_by_the_speed_times_the_tick_that_fires() {
    let mut game = Game::new();
    game.invaders.push(invader_at(0, 68 * UNIT));
    game.invaders.push(invader_at(16 * UNIT, 68 * UNIT));
    invaders_movement(&mut game, 840_000_000);
    assert_eq!(game.invaders[0].x, 0);
    invaders_movement(&mut game, 16_000_000);
    assert_eq!(game.invaders[0], invader_at(4 * UNIT, 68 * UNIT));
    assert_eq!(game.invaders[1], invader_at(20 * UNIT, 68 * UNIT));
    assert_eq!(game.direction, InvaderDirection::Right);
    assert!(game.invader_timer.0.just_finished());
    assert_eq!(game.invader_timer.0.elapsed(), Duration::from_millis(6));
}

#[test]
fn formation_turns_and_drops_when_one_invader_reaches_the_edge() {
    let mut game = Game::new();
    game.invaders.push(invader_at(0, 68 * UNIT));
    game.invaders.push(invader_at(EDGE_THRESHOLD - 4 * UNIT, 52 * UNIT));
    invaders_movement(&mut game, 834_000_000);
    invaders_movement(&mut game, 16_000_000);
    assert_eq!(game.direction, InvaderDirection::Left);
    assert_eq!(game.invaders[0], invader_at(0, 60 * UNIT));
    assert_eq!(game.invaders[1], invader_at(EDGE_THRESHOLD - 4 * UNIT, 44 * UNIT));
}

#[test]
fn formation_keeps_its_way_just_short_of_the_edge() {
    let mut game = Game::new();
    game.invaders.push(invader_at(EDGE_THRESHOLD - 4 * UNIT - 1, 52 * UNIT));
    invaders_movement(&mut game, 834_000_000);
    invaders_movement(&mut game, 16_000_000);
    assert_eq!(game.direction, InvaderDirection::Right);
    assert_eq!(game.invaders[0], invader_at(EDGE_THRESHOLD - 1, 52 * UNIT));
}

#[test]
fn formation_turns_back_at_the_left_edge() {
    let mut game = Game::new();
    game.direction = InvaderDirection::Left;
    game.speed = InvaderSpeed(250);
    game.invaders.push(invader_at(-114 * UNIT, 20 * UNIT));
    invaders_movement(&mut game, 850_000_000);
    assert_eq!(game.direction, InvaderDirection::Right);
    assert_eq!(game.invaders[0], invader_at(-114 * UNIT, 12 * UNIT));
}

#[test]
fn edge_threshold_is_half_the_width_less_eleven_columns() {
    assert_eq!(EDGE_THRESHOLD, 320 * UNIT - 11 * 18_500_000_000);
}

#[test]
fn formation_without_invaders_only_ticks_its_timer() {
    let mut game = Game::new();
    invaders_movement(&mut game, 900_000_000);
    assert!(game.invaders.is_empty());
    assert_eq!(game.direction, InvaderDirection::Right);
    assert_eq!(game.invader_timer.0.elapsed(), Duration::from_millis(50));
}
