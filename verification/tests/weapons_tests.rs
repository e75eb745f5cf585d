use space_invaders::components::Bullet;
use space_invaders::components::Invader;
use space_invaders::components::InvaderBullet;
use space_invaders::components::InvaderBulletProbability;
use space_invaders::components::Player;
use space_invaders::components::PlayerBullet;
use space_invaders::components::PlayerID;
use space_invaders::components::Shooter;
use space_invaders::enums::InvaderBulletType;
use space_invaders::enums::Texture;
use space_invaders::game::Game;
use space_invaders::geometry::Vec2;
use space_invaders::geometry::UNIT;
use space_invaders::weapons::count_shooters;
use space_invaders::weapons::decide_shot;
use space_invaders::weapons::draw_rolls;
use space_invaders::weapons::fire_volley;
use space_invaders::weapons::invader_bullet_probabilities;
use space_invaders::weapons::invaders_shooting;
use space_invaders::weapons::select_bullet_type;
use space_invaders::weapons::spawn_player_bullets;
use space_invaders::weapons::ShotRoll;
use space_invaders::weapons::INVADER_SHOOT_PROBABILITY;
use space_invaders::weapons::PROBABILITY_SCALE;
use std::time::Duration;

fn shooter_at(x: i64) -> Invader {
    Invader { x, y: 68 * UNIT, texture: Texture::Invader3, shooter: Some(Shooter {}) }
}

fn decoy_at(x: i64) -> Invader {
    Invader { x, y: 6 * UNIT, texture: Texture::Invader1, shooter: None }
}

fn dropped(x: i64, bullet_type: InvaderBulletType) -> InvaderBullet {
    InvaderBullet {
        bullet_type,
        bullet: Bullet { velocity: Vec2 { x: 0, y: -100 }, x, y: 68 * UNIT },
    }
}

fn player_at(x: i64, id: u32) -> Player {
    Player {
        speed: 100,
        lives: 3,
        score: 0,
        id: PlayerID { id },
        is_hit: false,
        x,
        y: -75 * UNIT,
        texture: Texture::Player,
    }
}

#[test]
fn table_holds_three_bullets_to_one_bolt() {
    assert_eq!(
        invader_bullet_probabilities(),
        vec![
            InvaderBulletProbability {
                bullet_type: InvaderBulletType::Bullet,
                probability: 750_000
            },
            InvaderBulletProbability { bullet_type: InvaderBulletType::Bolt, probability: 250_000 },
        ]
    );
    assert_eq!(PROBABILITY_SCALE, 1_000_000);
    assert_eq!(INVADER_SHOOT_PROBABILITY, 100_000);
}

#[test]
fn pick_selects_the_first_row_whose_mass_exceeds_it() {
    let table = invader_bullet_probabilities();
    assert_eq!(select_bullet_type(&table, 0), Some(InvaderBulletType::Bullet));
    assert_eq!(select_bullet_type(&table, 749_999), Some(InvaderBulletType::Bullet));
    assert_eq!(select_bullet_type(&table, 750_000), Some(InvaderBulletType::Bolt));
    assert_eq!(select_bullet_type(&table, 999_999), Some(InvaderBulletType::Bolt));
}

#[test]
fn pick_beyond_the_whole_mass_selects_nothing() {
    let table = invader_bullet_probabilities();
    assert_eq!(select_bullet_type(&table, 1_000_000), None);
    assert_eq!(select_bullet_type(&table, u32::MAX), None);
    assert_eq!(select_bullet_type(&Vec::new(), 0), None);
    let short = vec![InvaderBulletProbability {
        bullet_type: InvaderBulletType::Bolt,
        probability: 10,
    }];
    assert_eq!(select_bullet_type(&short, 9), Some(InvaderBulletType::Bolt));
    assert_eq!(select_bullet_type(&short, 10), None);
}

#[test]
fn masses_beyond_32_bits_accumulate() {
    let table = vec![
        InvaderBulletProbability { bullet_type: InvaderBulletType::Bullet, probability: u32::MAX },
        InvaderBulletProbability { bullet_type: InvaderBulletType::Bolt, probability: u32::MAX },
    ];
    assert_eq!(select_bullet_type(&table, u32::MAX - 1), Some(InvaderBulletType::Bullet));
    assert_eq!(select_bullet_type(&table, u32::MAX), Some(InvaderBulletType::Bolt));
}

#[test]
fn shooter_fires_only_when_the_chance_allows() {
    let table = invader_bullet_probabilities();
    assert_eq!(
        decide_shot(&table, ShotRoll { chance: 100_000, pick: 0 }),
        Some(InvaderBulletType::Bullet)
    );
    assert_eq!(decide_shot(&table, ShotRoll { chance: 100_001, pick: 0 }), None);
    assert_eq!(
        decide_shot(&table, ShotRoll { chance: 0, pick: 800_000 }),
        Some(InvaderBulletType::Bolt)
    );
}

#[test]
fn volley_gives_each_shooter_its_own_draws() {
    let mut game = Game::new();
    game.invaders.push(decoy_at(-80 * UNIT));
    game.invaders.push(shooter_at(-80 * UNIT));
    game.invaders.push(shooter_at(-64 * UNIT));
    game.invaders.push(decoy_at(-48 * UNIT));
    game.invaders.push(shooter_at(-48 * UNIT));
    game.invaders.push(shooter_at(-32 * UNIT));
    game.invader_bullets.push(dropped(0, InvaderBulletType::Bolt));
    let rolls = vec![
        ShotRoll { chance: 5, pick: 900_000 },
        ShotRoll { chance: 500_000, pick: 0 },
        ShotRoll { chance: 99_999, pick: 100 },
    ];
    assert_eq!(count_shooters(&game.invaders), 4);
    fire_volley(&mut game, &rolls);
    assert_eq!(
        game.invader_bullets,
        vec![
            dropped(0, InvaderBulletType::Bolt),
            dropped(-80 * UNIT, InvaderBulletType::Bolt),
            dropped(-48 * UNIT, InvaderBulletType::Bullet),
        ]
    );
    assert_eq!(game.invaders.len(), 6);
}

#[test]
fn draws_lie_within_the_scale() {
    let rolls = draw_rolls(5000);
    assert_eq!(rolls.len(), 5000);
    let mut first = rolls[0];
    let mut all_equal = true;
    for roll in rolls {
        assert!(roll.chance < PROBABILITY_SCALE);
        assert!(roll.pick < PROBABILITY_SCALE);
        if roll.chance > INVADER_SHOOT_PROBABILITY {
            assert_eq!(roll.pick, 0);
        }
        if roll != first {
            all_equal = false;
        }
        first = roll;
    }
    assert!(!all_equal);
}

#[test]
fn drawn_shots_follow_the_shares_of_the_table() {
    let table = invader_bullet_probabilities();
    let rolls = draw_rolls(200_000);
    let mut bullets = 0u32;
    let mut bolts = 0u32;
    let mut silent = 0u32;
    for roll in rolls {
        match decide_shot(&table, roll) {
            Some(InvaderBulletType::Bullet) => bullets += 1,
            Some(InvaderBulletType::Bolt) => bolts += 1,
            None => silent += 1,
        }
    }
    let fired = (bullets + bolts) as f64;
    assert!(fired / 200_000.0 > 0.09);
    assert!(fired / 200_000.0 < 0.11);
    assert!(bullets as f64 / fired > 0.72);
    assert!(bullets as f64 / fired < 0.78);
    assert!(bolts as f64 / fired > 0.22);
    assert!(bolts as f64 / fired < 0.28);
    assert_eq!(silent + bullets + bolts, 200_000);
}

#[test]
fn every_pick_of_the_scale_selects_by_its_share() {
    let table = invader_bullet_probabilities();
    let mut bullets = 0u32;
    let mut bolts = 0u32;
    let mut pick = 0u32;
    while pick < PROBABILITY_SCALE {
        match select_bullet_type(&table, pick) {
            Some(InvaderBulletType::Bullet) => bullets += 1,
            Some(InvaderBulletType::Bolt) => bolts += 1,
            None => panic!("no row for a pick within the scale"),
        }
        pick += 1;
    }
    assert_eq!(bullets, 750_000);
    assert_eq!(bolts, 250_000);
}

#[test]
fn invaders_hold_their_fire_until_the_timer_fires() {
    let mut game = Game::new();
    game.invaders.push(shooter_at(0));
    invaders_shooting(&mut game, 999_999_999);
    assert!(game.invader_bullets.is_empty());
    assert_eq!(game.invader_shoot_timer.0.elapsed(), Duration::from_nanos(999_999_999));
}

#[test]
fn round_of_fire_drops_bullets_from_shooters_only() {
    let mut game = Game::new();
    let mut col = 0;
    while col < 400 {
        game.invaders.push(shooter_at(col * UNIT));
        game.invaders.push(decoy_at(col * UNIT));
        col += 1;
    }
    invaders_shooting(&mut game, 1_000_000_000);
    assert!(game.invader_shoot_timer.0.finished());
    assert!(!game.invader_bullets.is_empty());
    assert!(game.invader_bullets.len() < 400);
    let mut last_x = -1;
    for b in &game.invader_bullets {
        assert_eq!(b.bullet.y, 68 * UNIT);
        assert_eq!(b.bullet.velocity, Vec2 { x: 0, y: -100 });
        assert!(b.bullet.x > last_x);
        assert!(b.bullet.x < 400 * UNIT);
        last_x = b.bullet.x;
    }
    assert_eq!(game.invaders.len(), 800);
}

#[test]
fn round_of_fire_without_shooters_adds_nothing() {
    let mut game = Game::new();
    game.invaders.push(decoy_at(0));
    invaders_shooting(&mut game, 1_000_000_000);
    assert!(game.invader_bullets.is_empty());
}

#[test]
fn player_cannot_fire_during_the_cooldown() {
    let mut game = Game::new();
    game.players.push(player_at(0, 3));
    spawn_player_bullets(&mut game, true, 499_999_999);
    assert!(game.player_bullets.is_empty());
    assert_eq!(game.player_shoot_timer.0.elapsed(), Duration::from_nanos(499_999_999));
}

#[test]
fn player_fires_on_a_press_after_the_cooldown() {
    let mut game = Game::new();
    game.players.push(player_at(12 * UNIT, 3));
    spawn_player_bullets(&mut game, false, 500_000_000);
    assert!(game.player_bullets.is_empty());
    assert!(game.player_shoot_timer.0.finished());
    spawn_player_bullets(&mut game, true, 16_000_000);
    assert_eq!(
        game.player_bullets,
        vec![PlayerBullet {
            player_id: PlayerID { id: 3 },
            bullet: Bullet { velocity: Vec2 { x: 0, y: 100 }, x: 12 * UNIT, y: -75 * UNIT },
        }]
    );
    assert!(!game.player_shoot_timer.0.finished());
    assert_eq!(game.player_shoot_timer.0.elapsed(), Duration::ZERO);
    spawn_player_bullets(&mut game, true, 16_000_000);
    assert_eq!(game.player_bullets.len(), 1);
}

#[test]
fn press_without_a_player_fires_nothing_and_keeps_the_cooldown_over() {
    let mut game = Game::new();
    spawn_player_bullets(&mut game, true, 500_000_000);
    assert!(game.player_bullets.is_empty());
    assert!(game.player_shoot_timer.0.finished());
}
