//! The game state machine: active play wrapped in Playing/Frozen states,
//! with pause, end-of-round overlays and restart.

use vstd::prelude::*;
use crate::bounds::DT_LIMIT;
use crate::config::Config;
use crate::geometry::ScreenDims;
use crate::input::Input;
use crate::rng::{draw_frame_samples, FrameSamples};
use crate::round::{outcome_of, Round, RoundModel, StepOutcome};

verus! {

/// Full overlay opacity, in per-mille.
pub const ALPHA_FULL: u32 = 1000;

/// Why the game froze.
#[derive(Clone, Copy, Debug, PartialEq, Eq, Structural)]
pub enum FrozenReason {
    Died,
    Won,
    Paused,
}

/// Playing, or frozen with a reason and a fade-in overlay. A frozen state
/// is only ever entered from Playing with the overlay fully transparent.
#[derive(Clone, Copy, Debug, PartialEq, Eq, Structural)]
pub enum GameState {
    Playing,
    Frozen { reason: FrozenReason, overlay_alpha: u32 },
}

/// The one abnormal condition: ship and sky core dead in the same frame,
/// which the design treats as a contradiction rather than picking a winner.
#[derive(Clone, Copy, Debug, PartialEq, Eq, Structural)]
pub enum UpdateError {
    SimultaneousDeath,
}

/// The mathematical state of the whole game.
#[verifier::ext_equal]
pub struct GameModel {
    pub round: RoundModel,
    pub state: GameState,
}

impl GameModel {
    pub open spec fn wf(self) -> bool {
        &&& self.round.wf()
        &&& match self.state {
            GameState::Playing => true,
            GameState::Frozen { reason, overlay_alpha } => overlay_alpha <= ALPHA_FULL,
        }
    }

    /// A fresh game: a fresh round, playing.
    pub open spec fn initial(config: Config, screen: ScreenDims) -> GameModel {
        GameModel { round: RoundModel::initial(config, screen), state: GameState::Playing }
    }
}

/// The overlay opacity after one frozen frame: grown by the configured
/// step, capped at full opacity.
pub open spec fn alpha_after(alpha: u32, step: u32) -> u32 {
    if alpha + step > ALPHA_FULL {
        ALPHA_FULL
    } else {
        (alpha + step) as u32
    }
}

/// While frozen, the overlay only ever fades further in: each frame's
/// opacity is at least the last frame's, and never beyond full.
pub proof fn lemma_overlay_monotone(alpha: u32, bump: u32)
    requires
        alpha <= ALPHA_FULL,
    ensures
        alpha_after(alpha, bump) >= alpha,
        alpha_after(alpha, bump) <= ALPHA_FULL,
{
}

/// Everything one update call does, as a relation between the state before
/// and after, the result, and the frame's inputs and random samples.
///
/// While playing, pause freezes at once and nothing is simulated; otherwise
/// the round advances to exactly its model's next state and the outcome of
/// the frame decides the state: ship dead freezes as Died, sky core dead
/// freezes as Won, both dead leaves the round state standing and reports
/// the contradiction as an error — the only error this update can return.
/// While frozen, the overlay fades in by the configured step (capped at
/// full) and a held restart discards everything for a fresh playing round
/// on the current screen, whatever the overlay shows.
pub open spec fn update_relation(
    pre: GameModel,
    post: GameModel,
    r: Result<(), UpdateError>,
    input: Input,
    dt: u64,
    screen: ScreenDims,
    s: FrameSamples,
) -> bool {
    match pre.state {
        GameState::Playing => {
            if input.pause {
                post == (GameModel {
                    round: pre.round,
                    state: GameState::Frozen { reason: FrozenReason::Paused, overlay_alpha: 0 },
                }) && r == Result::<(), UpdateError>::Ok(())
            } else {
                let m = pre.round.stepped(input, dt, screen, s);
                post.round == m && match outcome_of(m.ship.health, m.sky_core.health) {
                    StepOutcome::Continue => post.state == GameState::Playing && r
                        == Result::<(), UpdateError>::Ok(()),
                    StepOutcome::Died => post.state == (GameState::Frozen {
                        reason: FrozenReason::Died,
                        overlay_alpha: 0,
                    }) && r == Result::<(), UpdateError>::Ok(()),
                    StepOutcome::Won => post.state == (GameState::Frozen {
                        reason: FrozenReason::Won,
                        overlay_alpha: 0,
                    }) && r == Result::<(), UpdateError>::Ok(()),
                    StepOutcome::BothDied => post.state == GameState::Playing && r
                        == Result::<(), UpdateError>::Err(UpdateError::SimultaneousDeath),
                    StepOutcome::Paused => false,
                }
            }
        },
        GameState::Frozen { reason, overlay_alpha } => {
            if input.restart {
                post == GameModel::initial(pre.round.config, screen) && r == Result::<
                    (),
                    UpdateError,
                >::Ok(())
            } else {
                post == (GameModel {
                    round: pre.round,
                    state: GameState::Frozen {
                        reason,
                        overlay_alpha: alpha_after(
                            overlay_alpha,
                            pre.round.config.overlay_alpha_step,
                        ),
                    },
                }) && r == Result::<(), UpdateError>::Ok(())
            }
        },
    }
}

/// The live game: one owned round and the current state tag.
pub struct Game {
    pub round: Round,
    pub state: GameState,
}

impl View for Game {
    type V = GameModel;

    open spec fn view(&self) -> GameModel {
        GameModel { round: self.round@, state: self.state }
    }
}

impl Game {
    pub open spec fn wf(self) -> bool {
        self@.wf()
    }

    /// Runtime check of `wf`, for callers outside the verified world.
    pub fn is_well_formed(&self) -> (b: bool)
        ensures
            b == self.wf(),
    {
        self.round.is_well_formed() && match self.state {
            GameState::Playing => true,
            GameState::Frozen { reason: _, overlay_alpha } => overlay_alpha <= ALPHA_FULL,
        }
    }

    /// Start a fresh game on the given screen.
    pub fn new(config: Config, screen: ScreenDims) -> (g: Game)
        requires
            config.wf(),
            screen.wf(),
        ensures
            g@ == GameModel::initial(config, screen),
            g.wf(),
    {
        let g = Game { round: Round::new(config, screen), state: GameState::Playing };
        proof {
            assert(g@ =~= GameModel::initial(config, screen));
        }
        g
    }

    /// One frame of the game with the random samples supplied by the
    /// caller: fully deterministic, and specified exactly by
    /// [`update_relation`].
    pub fn update_with(
        &mut self,
        input: Input,
        dt: u64,
        screen: ScreenDims,
        s: FrameSamples,
    ) -> (r: Result<(), UpdateError>)
        requires
            old(self).wf(),
            dt <= DT_LIMIT,
            screen.wf(),
            s.wf(),
        ensures
            update_relation(old(self)@, final(self)@, r, input, dt, screen, s),
            final(self).wf(),
    {
        match self.state {
            GameState::Playing => {
                let o = self.round.step_playing(input, dt, screen, s);
                match o {
                    StepOutcome::Paused => {
                        self.state = GameState::Frozen {
                            reason: FrozenReason::Paused,
                            overlay_alpha: 0,
                        };
                        Ok(())
                    },
                    StepOutcome::Continue => Ok(()),
                    StepOutcome::Died => {
                        self.state = GameState::Frozen {
                            reason: FrozenReason::Died,
                            overlay_alpha: 0,
                        };
                        Ok(())
                    },
                    StepOutcome::Won => {
                        self.state = GameState::Frozen {
                            reason: FrozenReason::Won,
                            overlay_alpha: 0,
                        };
                        Ok(())
                    },
                    StepOutcome::BothDied => Err(UpdateError::SimultaneousDeath),
                }
            },
            GameState::Frozen { reason, overlay_alpha } => {
                let bump = self.round.config.overlay_alpha_step;
                let bumped = if overlay_alpha + bump > ALPHA_FULL {
                    ALPHA_FULL
                } else {
                    overlay_alpha + bump
                };
                self.state = GameState::Frozen { reason, overlay_alpha: bumped };
                if input.restart {
                    *self = Game::new(self.round.config, screen);
                }
                Ok(())
            },
        }
    }

    /// One frame of the game, drawing this frame's random samples from the
    /// thread's generator. Whatever the draw, the update satisfies
    /// [`update_relation`] for some well-formed samples.
    pub fn update(
        &mut self,
        input: Input,
        dt: u64,
        screen: ScreenDims,
        rng: &mut rand::rngs::ThreadRng,
    ) -> (r: Result<(), UpdateError>)
        requires
            old(self).wf(),
            dt <= DT_LIMIT,
            screen.wf(),
        ensures
            final(self).wf(),
            exists|s: FrameSamples|
                s.wf() && update_relation(old(self)@, final(self)@, r, input, dt, screen, s),
    {
        let s = draw_frame_samples(rng, self.round.config.bullet_spawn_one_in);
        let r = self.update_with(input, dt, screen, s);
        proof {
            assert(s.wf() && update_relation(old(self)@, self@, r, input, dt, screen, s));
        }
        r
    }

    /// The caption a frozen screen shows for its reason.
    pub fn caption(reason: FrozenReason) -> (c: &'static str)
        ensures
            reason == FrozenReason::Died ==> c@ == "You died."@,
            reason == FrozenReason::Won ==> c@ == "You won!"@,
            reason == FrozenReason::Paused ==> c@ == "Paused"@,
    {
        match reason {
            FrozenReason::Died => "You died.",
            FrozenReason::Won => "You won!",
            FrozenReason::Paused => "Paused",
        }
    }
}

} // verus!
