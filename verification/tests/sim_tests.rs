use game_test::bullet::Bullet;
use game_test::config::Config;
use game_test::extent::Extent;
use game_test::game::{Game, GameState};
use game_test::geometry::ScreenDims;
use game_test::input::Input;
use game_test::laser::Laser;
use game_test::motion::{Point, Vector};
use game_test::rng::FrameSamples;
use game_test::round::Round;
use game_test::ship::Ship;
use game_test::sky_core::SkyCore;

#[test]
fn ten_frames_of_fire_drain_sky_core_by_ten() {
    // A fresh game whose sky core sprite is huge, so every spawned laser
    // overlaps it at once, and whose cooldown is zero, so holding fire
    // spawns one laser per frame: ten frames create exactly ten lasers and
    // the sky core loses exactly ten health while play continues.
    let config = Config {
        ship_speed: 200,
        laser_speed: 900,
        bullet_speed: 100,
        sky_core_speed: 10,
        laser_cooldown_ms: 0,
        ship_offset_from_bottom: 100_000,
        overlay_alpha_step: 10,
        bullet_spawn_one_in: 2,
        ship_extent: Extent { w: 10_000, h: 10_000 },
        sky_core_extent: Extent { w: 100_000_000, h: 100_000_000 },
        laser_extent: Extent { w: 4_000, h: 8_000 },
        bullet_extent: Extent { w: 8_000, h: 8_000 },
    };
    let screen = ScreenDims { w: 600_000, h: 600_000 };
    let mut game = Game::new(config, screen);
    assert_eq!(game.round.sky_core.health, 500);
    assert_eq!(game.round.ship.health, 10);
    let fire = Input { up: false, down: false, left: false, right: false, fire: true, pause: false, restart: false };
    // A spawn roll of 1 means the sky core fires no bullet.
    let samples = FrameSamples { roll: 1, dir_x: 0, dir_y: 1000, mag: 1000 };
    for _ in 0..10 {
        let r = game.update_with(fire, 16, screen, samples);
        assert!(r.is_ok());
    }
    assert_eq!(game.round.sky_core.health, 490);
    assert_eq!(game.round.ship.health, 10);
    assert!(matches!(game.state, GameState::Playing));
    // Every laser hit the core and was culled the frame it spawned.
    assert_eq!(game.round.lasers.len(), 0);
    assert_eq!(game.round.bullets.len(), 0);
}

#[test]
fn bullets_kill_ship_and_restart_resets_everything() {
    // A huge bullet sprite makes every spawned bullet hit the ship at
    // once: ten frames of forced spawns drive the ship's health to exactly
    // zero while the sky core stays alive, freezing the game as Died; a
    // restart then builds a fresh playing round.
    let config = Config {
        ship_speed: 200,
        laser_speed: 900,
        bullet_speed: 100,
        sky_core_speed: 10,
        laser_cooldown_ms: 250,
        ship_offset_from_bottom: 100_000,
        overlay_alpha_step: 10,
        bullet_spawn_one_in: 2,
        ship_extent: Extent { w: 10_000, h: 10_000 },
        sky_core_extent: Extent { w: 10_000, h: 10_000 },
        laser_extent: Extent { w: 4_000, h: 8_000 },
        bullet_extent: Extent { w: 100_000_000, h: 100_000_000 },
    };
    let screen = ScreenDims { w: 600_000, h: 600_000 };
    let mut game = Game::new(config, screen);
    let idle = Input { up: false, down: false, left: false, right: false, fire: false, pause: false, restart: false };
    // A spawn roll of 0 forces one bullet per frame.
    let spawn = FrameSamples { roll: 0, dir_x: 0, dir_y: 1000, mag: 1000 };
    for frame in 0..10 {
        assert!(matches!(game.state, GameState::Playing), "frame {}", frame);
        let r = game.update_with(idle, 16, screen, spawn);
        assert!(r.is_ok());
    }
    assert_eq!(game.round.ship.health, 0);
    assert_eq!(game.round.sky_core.health, 500);
    assert!(matches!(
        game.state,
        GameState::Frozen { reason: game_test::game::FrozenReason::Died, overlay_alpha: 0 }
    ));
    // Restart: a fresh playing round, full health, no projectiles.
    let restart = Input { up: false, down: false, left: false, right: false, fire: false, pause: false, restart: true };
    let r = game.update_with(restart, 16, screen, spawn);
    assert!(r.is_ok());
    assert!(matches!(game.state, GameState::Playing));
    assert_eq!(game.round.ship.health, 10);
    assert_eq!(game.round.sky_core.health, 500);
    assert_eq!(game.round.lasers.len(), 0);
    assert_eq!(game.round.bullets.len(), 0);
    assert_eq!(game.round.ship.pos, Point { x: 300_000, y: 500_000 });
    assert_eq!(game.round.time_since_shot_laser, 250);
}

#[test]
fn laser_above_screen_is_culled() {
    // A laser whose whole hitbox sits above the top edge is removed.
    let config = Config {
        ship_speed: 0,
        laser_speed: 0,
        bullet_speed: 0,
        sky_core_speed: 0,
        laser_cooldown_ms: 250,
        ship_offset_from_bottom: 100_000,
        overlay_alpha_step: 10,
        bullet_spawn_one_in: 2,
        ship_extent: Extent { w: 10_000, h: 10_000 },
        sky_core_extent: Extent { w: 10_000, h: 10_000 },
        laser_extent: Extent { w: 4_000, h: 8_000 },
        bullet_extent: Extent { w: 8_000, h: 8_000 },
    };
    let screen = ScreenDims { w: 600_000, h: 600_000 };
    let mut round = Round::new(config, screen);
    // y = -5 pixels, in units; the hitbox spans y in [-9000, -1000], fully
    // above the top edge, and clear of the sky core to the side.
    round.lasers.push(Laser::new(
        Point { x: 100_000, y: -5_000 },
        Extent { w: 4_000, h: 8_000 },
    ));
    let mut game = Game { round, state: GameState::Playing };
    let idle = Input { up: false, down: false, left: false, right: false, fire: false, pause: false, restart: false };
    let no_spawn = FrameSamples { roll: 1, dir_x: 0, dir_y: 1000, mag: 1000 };
    let r = game.update_with(idle, 0, screen, no_spawn);
    assert!(r.is_ok());
    assert_eq!(game.round.lasers.len(), 0);
    assert_eq!(game.round.sky_core.health, 500);
}

#[test]
fn laser_hitting_core_damages_and_is_culled() {
    // A laser overlapping the sky core costs the core exactly one health
    // that frame and is removed with it.
    let config = Config {
        ship_speed: 0,
        laser_speed: 0,
        bullet_speed: 0,
        sky_core_speed: 0,
        laser_cooldown_ms: 250,
        ship_offset_from_bottom: 100_000,
        overlay_alpha_step: 10,
        bullet_spawn_one_in: 2,
        ship_extent: Extent { w: 10_000, h: 10_000 },
        sky_core_extent: Extent { w: 40_000, h: 40_000 },
        laser_extent: Extent { w: 4_000, h: 8_000 },
        bullet_extent: Extent { w: 8_000, h: 8_000 },
    };
    let screen = ScreenDims { w: 600_000, h: 600_000 };
    let mut round = Round::new(config, screen);
    round.sky_core.pos = Point { x: 300_000, y: 290_000 };
    round.lasers.push(Laser::new(
        Point { x: 300_000, y: 300_000 },
        Extent { w: 4_000, h: 8_000 },
    ));
    let mut game = Game { round, state: GameState::Playing };
    let idle = Input { up: false, down: false, left: false, right: false, fire: false, pause: false, restart: false };
    let no_spawn = FrameSamples { roll: 1, dir_x: 0, dir_y: 1000, mag: 1000 };
    let r = game.update_with(idle, 0, screen, no_spawn);
    assert!(r.is_ok());
    assert_eq!(game.round.sky_core.health, 499);
    assert_eq!(game.round.lasers.len(), 0);
}

#[test]
fn simultaneous_death_is_reported_as_error() {
    // Ship and sky core each at one health, each hit in the same frame:
    // the update reports the contradiction and freezes nothing.
    let config = Config {
        ship_speed: 0,
        laser_speed: 0,
        bullet_speed: 0,
        sky_core_speed: 0,
        laser_cooldown_ms: 250,
        ship_offset_from_bottom: 100_000,
        overlay_alpha_step: 10,
        bullet_spawn_one_in: 2,
        ship_extent: Extent { w: 10_000, h: 10_000 },
        sky_core_extent: Extent { w: 10_000, h: 10_000 },
        laser_extent: Extent { w: 100_000_000, h: 100_000_000 },
        bullet_extent: Extent { w: 100_000_000, h: 100_000_000 },
    };
    let screen = ScreenDims { w: 600_000, h: 600_000 };
    let round = Round {
        config,
        ship: Ship {
            pos: Point { x: 300_000, y: 500_000 },
            velocity: Vector { x: 0, y: 1000 },
            extent: Extent { w: 10_000, h: 10_000 },
            health: 1,
        },
        lasers: vec![Laser {
            pos: Point { x: 300_000, y: 100_000 },
            extent: Extent { w: 100_000_000, h: 100_000_000 },
        }],
        sky_core: SkyCore {
            pos: Point { x: 300_000, y: 0 },
            velocity: Vector { x: 0, y: 1000 },
            extent: Extent { w: 10_000, h: 10_000 },
            health: 1,
        },
        bullets: vec![Bullet {
            pos: Point { x: 300_000, y: 400_000 },
            velocity: Vector { x: 0, y: 1000 },
            extent: Extent { w: 100_000_000, h: 100_000_000 },
        }],
        time_since_shot_laser: 0,
    };
    let mut game = Game { round, state: GameState::Playing };
    assert!(game.is_well_formed());
    let idle = Input { up: false, down: false, left: false, right: false, fire: false, pause: false, restart: false };
    let no_spawn = FrameSamples { roll: 1, dir_x: 0, dir_y: 1000, mag: 1000 };
    let r = game.update_with(idle, 0, screen, no_spawn);
    assert_eq!(r, Err(game_test::game::UpdateError::SimultaneousDeath));
    assert!(matches!(game.state, GameState::Playing));
    assert_eq!(game.round.ship.health, 0);
    assert_eq!(game.round.sky_core.health, 0);
}

#[test]
fn cooldown_gates_fire_to_one_laser() {
    // The timer starts ready, so the first held-fire frame spawns a laser
    // and resets it; four more frames totalling less than the cooldown
    // spawn nothing, and the laser count only grows again once the
    // accumulated time reaches the cooldown.
    let config = Config {
        ship_speed: 0,
        laser_speed: 1,
        bullet_speed: 0,
        sky_core_speed: 0,
        laser_cooldown_ms: 250,
        ship_offset_from_bottom: 100_000,
        overlay_alpha_step: 10,
        bullet_spawn_one_in: 2,
        ship_extent: Extent { w: 10_000, h: 10_000 },
        sky_core_extent: Extent { w: 10_000, h: 10_000 },
        laser_extent: Extent { w: 4_000, h: 8_000 },
        bullet_extent: Extent { w: 8_000, h: 8_000 },
    };
    let screen = ScreenDims { w: 600_000, h: 600_000 };
    let mut game = Game::new(config, screen);
    let fire = Input { up: false, down: false, left: false, right: false, fire: true, pause: false, restart: false };
    let no_spawn = FrameSamples { roll: 1, dir_x: 0, dir_y: 1000, mag: 1000 };
    assert!(game.update_with(fire, 50, screen, no_spawn).is_ok());
    assert_eq!(game.round.lasers.len(), 1);
    assert_eq!(game.round.time_since_shot_laser, 0);
    // Four frames summing to 200 ms < 250 ms: still exactly one laser.
    for _ in 0..4 {
        assert!(game.update_with(fire, 50, screen, no_spawn).is_ok());
        assert_eq!(game.round.lasers.len(), 1);
    }
    // Two more frames bring the accumulator to the cooldown: a second shot.
    assert!(game.update_with(fire, 50, screen, no_spawn).is_ok());
    assert_eq!(game.round.lasers.len(), 1);
    assert!(game.update_with(fire, 50, screen, no_spawn).is_ok());
    assert_eq!(game.round.lasers.len(), 2);
}

#[test]
fn sky_core_marches_down_and_holds_at_centre() {
    // At 10 px/s over 10-second frames the core descends 100 pixels per
    // frame, reaches the vertical centre after three frames, and then
    // holds there for good.
    let config = Config {
        ship_speed: 0,
        laser_speed: 0,
        bullet_speed: 0,
        sky_core_speed: 10,
        laser_cooldown_ms: 250,
        ship_offset_from_bottom: 100_000,
        overlay_alpha_step: 10,
        bullet_spawn_one_in: 2,
        ship_extent: Extent { w: 10_000, h: 10_000 },
        sky_core_extent: Extent { w: 10_000, h: 10_000 },
        laser_extent: Extent { w: 4_000, h: 8_000 },
        bullet_extent: Extent { w: 8_000, h: 8_000 },
    };
    let screen = ScreenDims { w: 600_000, h: 600_000 };
    let mut game = Game::new(config, screen);
    assert_eq!(game.round.sky_core.pos, Point { x: 300_000, y: 0 });
    let idle = Input { up: false, down: false, left: false, right: false, fire: false, pause: false, restart: false };
    let no_spawn = FrameSamples { roll: 1, dir_x: 0, dir_y: 1000, mag: 1000 };
    for _ in 0..3 {
        assert!(game.update_with(idle, 10_000, screen, no_spawn).is_ok());
    }
    assert_eq!(game.round.sky_core.pos.y, 300_000);
    for _ in 0..10 {
        assert!(game.update_with(idle, 10_000, screen, no_spawn).is_ok());
    }
    assert_eq!(game.round.sky_core.pos.y, 300_000);
    assert_eq!(game.round.sky_core.pos.x, 300_000);
}
