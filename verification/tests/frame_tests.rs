use space_invaders::components::Bullet;
use space_invaders::components::InvaderBullet;
use space_invaders::components::PlayerScore;
use space_invaders::enums::CursorIcon;
use space_invaders::enums::Interaction;
use space_invaders::enums::InvaderBulletType;
use space_invaders::enums::Texture;
use space_invaders::frame::playing;
use space_invaders::frame::update;
use space_invaders::frame::Frame;
use space_invaders::game::Game;
use space_invaders::game::WindowSize;
use space_invaders::geometry::Vec2;
use space_invaders::geometry::UNIT;
use space_invaders::resources::GameState;
use space_invaders::setup::setup_game;
use std::time::Duration;

fn frame(delta_nanos: u64) -> Frame {
    Frame {
        left: false,
        right: false,
        fire: false,
        interaction: None,
        delta_nanos,
        window: WindowSize { width: 640_000_000_000, height: 480_000_000_000 },
    }
}

fn started() -> Game {
    let mut game = Game::new();
    setup_game(&mut game);
    game
}

fn bolt_at(x: i64, y: i64) -> InvaderBullet {
    InvaderBullet {
        bullet_type: InvaderBulletType::Bolt,
        bullet: Bullet { velocity: Vec2 { x: 0, y: -100 }, x, y },
    }
}

#[test]
fn defeated_formation_respawns_pauses_and_play_resumes() {
    let mut game = started();
    game.invaders.clear();
    update(&mut game, &frame(16_000_000));
    assert_eq!(game.game_state, GameState::RespawningInvaders);
    assert!(game.invaders.is_empty());
    update(&mut game, &frame(16_000_000));
    assert_eq!(game.game_state, GameState::Pausing);
    assert_eq!(game.invaders.len(), 55);
    update(&mut game, &frame(500_000_000));
    assert_eq!(game.game_state, GameState::Pausing);
    update(&mut game, &frame(499_999_999));
    assert_eq!(game.game_state, GameState::Pausing);
    update(&mut game, &frame(1));
    assert_eq!(game.game_state, GameState::Playing);
    assert_eq!(game.invaders.len(), 55);
}

#[test]
fn pausing_freezes_everything_but_the_delay() {
    let mut game = started();
    game.game_state = GameState::Pausing;
    game.invader_bullets.push(bolt_at(0, 0));
    let mut f = frame(300_000_000);
    f.right = true;
    f.fire = true;
    update(&mut game, &f);
    assert_eq!(game.players[0].x, -77_750_000_000);
    assert_eq!(game.invader_bullets, vec![bolt_at(0, 0)]);
    assert!(game.player_bullets.is_empty());
    assert_eq!(game.invader_timer.0.elapsed(), Duration::ZERO);
    assert_eq!(game.player_shoot_timer.0.elapsed(), Duration::ZERO);
    assert_eq!(game.respawning_invaders_timer.0.elapsed(), Duration::from_millis(300));
}

#[test]
fn tick_of_play_moves_fires_and_resolves_in_order() {
    let mut game = started();
    let mut f = frame(500_000_000);
    f.right = true;
    f.fire = true;
    update(&mut game, &f);
    assert_eq!(game.game_state, GameState::Playing);
    assert_eq!(game.players[0].x, -27_750_000_000);
    assert_eq!(game.player_bullets.len(), 1);
    assert_eq!(game.player_bullets[0].bullet.x, -27_750_000_000);
    assert_eq!(game.player_bullets[0].bullet.y, -75 * UNIT);
    assert_eq!(game.player_bullets[0].player_id, game.players[0].id);
    assert_eq!(game.invader_timer.0.elapsed(), Duration::from_millis(500));
    let mut f = frame(100_000_000);
    f.fire = true;
    update(&mut game, &f);
    assert_eq!(game.player_bullets.len(), 1);
    assert_eq!(game.player_bullets[0].bullet.y, -65 * UNIT);
}

#[test]
fn player_bullet_wears_the_shield_above_and_is_gone() {
    let mut game = started();
    game.players[0].x = -83_750_000_000;
    let mut f = frame(500_000_000);
    f.fire = true;
    update(&mut game, &f);
    assert_eq!(game.player_bullets.len(), 1);
    update(&mut game, &frame(190_000_000));
    assert_eq!(game.player_bullets.len(), 1);
    assert_eq!(game.player_bullets[0].bullet.y, -56 * UNIT);
    assert_eq!(game.shields[2].health, 4);
    update(&mut game, &frame(10_000_000));
    assert!(game.player_bullets.is_empty());
    assert_eq!(game.shields[2].health, 3);
    assert_eq!(game.shields[1].health, 4);
    assert_eq!(game.shields.len(), 40);
}

#[test]
fn hit_during_play_pauses_the_game_and_updates_the_icons() {
    let mut game = started();
    game.invader_bullets.push(bolt_at(-77_750_000_000, -70 * UNIT));
    update(&mut game, &frame(10_000_000));
    assert_eq!(game.game_state, GameState::PlayerHit);
    assert_eq!(game.players[0].lives, 2);
    assert!(game.players[0].is_hit);
    assert_eq!(game.lives.len(), 2);
    assert!(game.invader_bullets.is_empty());
    game.invader_bullets.push(bolt_at(-77_750_000_000, -70 * UNIT));
    update(&mut game, &frame(10_000_000));
    assert_eq!(game.players[0].lives, 2);
    assert!(game.invader_bullets.is_empty());
    assert_eq!(game.game_state, GameState::PlayerHit);
    update(&mut game, &frame(1_490_000_000));
    assert_eq!(game.game_state, GameState::Playing);
}

#[test]
fn last_hit_ends_the_game_and_a_press_restarts_it() {
    let mut game = started();
    game.players[0].lives = 1;
    game.players[0].score = 9;
    game.invader_bullets.push(bolt_at(-77_750_000_000, -75 * UNIT));
    update(&mut game, &frame(0));
    assert_eq!(game.game_state, GameState::GameOver);
    assert_eq!(game.players[0].lives, 0);
    assert!(game.lives.is_empty());
    assert_eq!(game.scores, vec![PlayerScore { player_id: game.players[0].id, shown: 9 }]);
    let mut f = frame(16_000_000);
    f.interaction = Some(Interaction::Hovered);
    assert_eq!(update(&mut game, &f), Some(CursorIcon::Pointer));
    assert_eq!(game.game_state, GameState::GameOver);
    assert!(game.invaders.is_empty());
    assert_eq!(game.restart_buttons.len(), 1);
    f.interaction = Some(Interaction::Idle);
    assert_eq!(update(&mut game, &f), Some(CursorIcon::Arrow));
    f.interaction = Some(Interaction::Pressed);
    assert_eq!(update(&mut game, &f), None);
    assert_eq!(game.game_state, GameState::Restarting);
    assert!(game.players.is_empty());
    assert!(game.shields.is_empty());
    f.interaction = None;
    assert_eq!(update(&mut game, &f), None);
    assert_eq!(game.game_state, GameState::Playing);
    assert_eq!(game.players.len(), 1);
    assert_eq!(game.players[0].lives, 3);
    assert_eq!(game.players[0].score, 0);
    assert_eq!(game.lives.len(), 3);
    assert_eq!(game.scores.len(), 1);
    assert_eq!(game.shields.len(), 40);
    assert_eq!(game.invaders.len(), 55);
    assert!(game.game_over_texts.is_empty());
}

#[test]
fn clock_adds_up_the_ticks_and_stops_at_its_end() {
    let mut game = started();
    update(&mut game, &frame(16_000_000));
    update(&mut game, &frame(4_000_000));
    assert_eq!(game.elapsed_nanos, 20_000_000);
    game.game_state = GameState::Pausing;
    update(&mut game, &frame(u64::MAX));
    assert_eq!(game.elapsed_nanos, u64::MAX);
    update(&mut game, &frame(5));
    assert_eq!(game.elapsed_nanos, u64::MAX);
}

#[test]
fn hit_player_flickers_by_the_clock_of_the_game() {
    let mut game = started();
    game.game_state = GameState::PlayerHit;
    update(&mut game, &frame(100_000_000));
    assert_eq!(game.players[0].texture, Texture::PlayerHit1);
    update(&mut game, &frame(100_000_000));
    assert_eq!(game.players[0].texture, Texture::PlayerHit2);
    update(&mut game, &frame(50_000_000));
    assert_eq!(game.players[0].texture, Texture::PlayerHit2);
    update(&mut game, &frame(50_000_000));
    assert_eq!(game.players[0].texture, Texture::PlayerHit1);
}

#[test]
fn interaction_outside_the_end_of_the_game_is_ignored() {
    let mut game = started();
    let mut f = frame(16_000_000);
    f.interaction = Some(Interaction::Pressed);
    assert_eq!(update(&mut game, &f), None);
    assert_eq!(game.game_state, GameState::Playing);
    assert_eq!(game.players.len(), 1);
}

#[test]
fn last_hit_in_the_tick_of_the_defeat_ends_the_game() {
    let mut game = started();
    game.players[0].lives = 1;
    game.invaders.clear();
    game.invader_bullets.push(bolt_at(-77_750_000_000, -75 * UNIT));
    playing(&mut game, &frame(0));
    assert_eq!(game.players[0].lives, 0);
    assert_eq!(game.game_state, GameState::GameOver);
}

#[test]
fn hit_in_the_tick_of_the_defeat_delays_the_respawn() {
    let mut game = started();
    game.invaders.clear();
    game.invader_bullets.push(bolt_at(-77_750_000_000, -75 * UNIT));
    update(&mut game, &frame(0));
    assert_eq!(game.players[0].lives, 2);
    assert_eq!(game.game_state, GameState::PlayerHit);
    update(&mut game, &frame(1_500_000_000));
    assert_eq!(game.game_state, GameState::Playing);
    update(&mut game, &frame(0));
    assert_eq!(game.game_state, GameState::RespawningInvaders);
}

#[test]
fn second_respawn_pauses_for_the_full_delay_again() {
    let mut game = started();
    let mut round = 0;
    while round < 2 {
        game.invaders.clear();
        update(&mut game, &frame(16_000_000));
        assert_eq!(game.game_state, GameState::RespawningInvaders);
        update(&mut game, &frame(16_000_000));
        assert_eq!(game.game_state, GameState::Pausing);
        update(&mut game, &frame(999_999_999));
        assert_eq!(game.game_state, GameState::Pausing);
        update(&mut game, &frame(1));
        assert_eq!(game.game_state, GameState::Playing);
        round += 1;
    }
}

#[test]
fn formation_marches_across_ticks_of_play() {
    let mut game = started();
    let mut ticks = 0;
    while ticks < 53 {
        update(&mut game, &frame(16_000_000));
        ticks += 1;
    }
    assert_eq!(game.invaders[0].x, -80 * UNIT);
    update(&mut game, &frame(16_000_000));
    assert_eq!(game.invaders[0].x, -76 * UNIT);
    assert_eq!(game.invaders[54].x, 84 * UNIT);
    assert_eq!(game.invaders[0].y, 6 * UNIT);
    assert_eq!(game.game_state, GameState::Playing);
}
