use game_test::config::Config;
use game_test::extent::Extent;
use game_test::game::{Game, FrozenReason, GameState};
use game_test::geometry::ScreenDims;
use game_test::input::Input;
use game_test::rng::draw_frame_samples;

#[test]
fn pause_freezes_and_overlay_fades_in_capped() {
    let config = Config::standard(
        Extent { w: 10_000, h: 10_000 },
        Extent { w: 20_000, h: 20_000 },
        Extent { w: 4_000, h: 8_000 },
        Extent { w: 8_000, h: 8_000 },
    );
    let screen = ScreenDims { w: 600_000, h: 600_000 };
    let mut game = Game::new(config, screen);
    let pause = Input { up: false, down: false, left: false, right: false, fire: false, pause: true, restart: false };
    let idle = Input { up: false, down: false, left: false, right: false, fire: false, pause: false, restart: false };
    let samples = game_test::rng::FrameSamples { roll: 1, dir_x: 0, dir_y: 1000, mag: 1000 };
    assert!(game.update_with(pause, 16, screen, samples).is_ok());
    assert!(matches!(
        game.state,
        GameState::Frozen { reason: FrozenReason::Paused, overlay_alpha: 0 }
    ));
    // The overlay grows by 10 per-mille each frozen frame and caps at 1000.
    for _ in 0..3 {
        assert!(game.update_with(idle, 16, screen, samples).is_ok());
    }
    assert!(matches!(
        game.state,
        GameState::Frozen { reason: FrozenReason::Paused, overlay_alpha: 30 }
    ));
    for _ in 0..200 {
        assert!(game.update_with(idle, 16, screen, samples).is_ok());
    }
    assert!(matches!(
        game.state,
        GameState::Frozen { reason: FrozenReason::Paused, overlay_alpha: 1000 }
    ));
    // Restart leaves the frozen state for a fresh round.
    let restart = Input { up: false, down: false, left: false, right: false, fire: false, pause: false, restart: true };
    assert!(game.update_with(restart, 16, screen, samples).is_ok());
    assert!(matches!(game.state, GameState::Playing));
}

#[test]
fn captions_name_each_frozen_reason() {
    assert_eq!(Game::caption(FrozenReason::Died), "You died.");
    assert_eq!(Game::caption(FrozenReason::Won), "You won!");
    assert_eq!(Game::caption(FrozenReason::Paused), "Paused");
}

#[test]
fn frame_samples_respect_their_ranges() {
    let mut rng = rand::thread_rng();
    // With one side, the roll can only be zero.
    for _ in 0..50 {
        let s = draw_frame_samples(&mut rng, 1);
        assert_eq!(s.roll, 0);
        assert!(-1000 <= s.dir_x && s.dir_x <= 1000);
        assert!(-1000 <= s.dir_y && s.dir_y <= 1000);
        assert!(500 <= s.mag && s.mag < 2000);
    }
    for _ in 0..50 {
        let s = draw_frame_samples(&mut rng, 2);
        assert!(s.roll < 2);
    }
}

#[test]
fn random_play_keeps_the_game_well_formed() {
    let config = Config::standard(
        Extent { w: 10_000, h: 10_000 },
        Extent { w: 20_000, h: 20_000 },
        Extent { w: 4_000, h: 8_000 },
        Extent { w: 8_000, h: 8_000 },
    );
    let screen = ScreenDims { w: 600_000, h: 600_000 };
    let mut game = Game::new(config, screen);
    let mut rng = rand::thread_rng();
    let fire = Input { up: false, down: true, left: true, right: false, fire: true, pause: false, restart: false };
    for _ in 0..200 {
        let r = game.update(fire, 16, screen, &mut rng);
        assert!(r.is_ok());
        assert!(game.is_well_formed());
        assert!(game.round.ship.health <= 10);
        assert!(game.round.sky_core.health <= 500);
        if !matches!(game.state, GameState::Playing) {
            break;
        }
    }
}

#[test]
fn ship_movement_clamps_to_screen() {
    let config = Config::standard(
        Extent { w: 10_000, h: 10_000 },
        Extent { w: 20_000, h: 20_000 },
        Extent { w: 4_000, h: 8_000 },
        Extent { w: 8_000, h: 8_000 },
    );
    let screen = ScreenDims { w: 600_000, h: 600_000 };
    let mut game = Game::new(config, screen);
    let down = Input { up: false, down: true, left: false, right: false, fire: false, pause: false, restart: false };
    let samples = game_test::rng::FrameSamples { roll: 1, dir_x: 0, dir_y: 1000, mag: 1000 };
    // The ship starts 100 pixels above the bottom and moves 200 px/s: after
    // a second it has hit the bottom edge and stays clamped there.
    for _ in 0..100 {
        assert!(game.update_with(down, 16, screen, samples).is_ok());
    }
    assert_eq!(game.round.ship.pos.y, 600_000);
    assert_eq!(game.round.ship.pos.x, 300_000);
    // Moving down-right along the edge: only x changes, by the diagonal
    // component 0.707 of 200 px/s over 16 ms, rounded down each frame.
    let down_right = Input { up: false, down: true, left: false, right: true, fire: false, pause: false, restart: false };
    assert!(game.update_with(down_right, 16, screen, samples).is_ok());
    assert_eq!(game.round.ship.pos.y, 600_000);
    assert_eq!(game.round.ship.pos.x, 300_000 + 707 * 200 * 16 / 1000);
}
