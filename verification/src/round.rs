//! One round of play: the entity collections, the per-frame update pipeline
//! and the fire-cooldown timer.
//!
//! The whole frame update is specified by a mathematical model:
//! [`RoundModel::stepped`] composes the stages of a frame — move the ship,
//! maybe fire, move the lasers, damage the sky core, maybe spawn a bullet,
//! move the sky core, move the bullets, damage the ship, cull — in exactly
//! the order the update performs them, and [`Round::step_playing`] ensures
//! the updated round equals that model.

use vstd::prelude::*;
use crate::bounds::{DIST_LIMIT, DT_LIMIT, MID_POS_LIMIT, SPEED_LIMIT, UNIT};
use crate::bullet::{bullet_velocity_spec, Bullet, BULLET_DAMAGE};
use crate::config::Config;
use crate::damage::TakeDamage;
use crate::geometry::{overlaps_spec, Rect, ScreenDims};
use crate::health::{apply_damage_spec, Health};
use crate::hitbox::{hitbox_spec, lemma_hitbox_bounds, Hitbox};
use crate::input::Input;
use crate::laser::{Laser, LASER_DAMAGE};
use crate::motion::{input_velocity, input_velocity_spec, stepped_point_spec, Point, Vector};
use crate::numeric::{half_nonneg, sat_add_u64, sat_add_u64_spec};
use crate::on_screen::OnScreen;
use crate::position::Position;
use crate::rng::FrameSamples;
use crate::ship::{Ship, SHIP_MAX_HEALTH};
use crate::sky_core::{SkyCore, SKY_CORE_MAX_HEALTH};
use crate::step_distance::StepDistance;

verus! {

/// The collision rectangle of a laser.
pub open spec fn laser_box(l: Laser) -> Rect {
    hitbox_spec(l.pos, l.extent, <Laser as Hitbox>::tuning_spec())
}

/// The collision rectangle of a bullet.
pub open spec fn bullet_box(b: Bullet) -> Rect {
    hitbox_spec(b.pos, b.extent, <Bullet as Hitbox>::tuning_spec())
}

/// The collision rectangle of the ship.
pub open spec fn ship_box(s: Ship) -> Rect {
    hitbox_spec(s.pos, s.extent, <Ship as Hitbox>::tuning_spec())
}

/// The collision rectangle of the sky core.
pub open spec fn core_box(c: SkyCore) -> Rect {
    hitbox_spec(c.pos, c.extent, <SkyCore as Hitbox>::tuning_spec())
}

/// Whether the player fires this frame: the fire action is held and the
/// time since the last shot has reached the cooldown.
pub open spec fn fire_decision(timer: u64, cooldown: u64, fire_held: bool) -> bool {
    fire_held && timer >= cooldown
}

/// The cooldown timer after a frame: reset to zero by a shot, otherwise
/// grown by the elapsed time.
pub open spec fn timer_after(timer: u64, cooldown: u64, fire_held: bool, dt: u64) -> u64 {
    if fire_decision(timer, cooldown, fire_held) {
        0u64
    } else {
        sat_add_u64_spec(timer, dt)
    }
}

/// The total elapsed time of a run of frames.
pub open spec fn dts_sum(dts: Seq<u64>) -> int
    decreases dts.len(),
{
    if dts.len() == 0 {
        0
    } else {
        dts[0] + dts_sum(dts.skip(1))
    }
}

/// Elapsed times are never negative, so neither is their total.
pub proof fn lemma_dts_sum_nonneg(dts: Seq<u64>)
    ensures
        dts_sum(dts) >= 0,
    decreases dts.len(),
{
    if dts.len() > 0 {
        lemma_dts_sum_nonneg(dts.skip(1));
    }
}

/// How many lasers a run of frames fires when the fire action is held on
/// every frame: frame by frame, [`fire_decision`] decides and
/// [`timer_after`] advances the cooldown timer — exactly the functions the
/// round model steps with.
pub open spec fn shots_fired(timer: u64, cooldown: u64, dts: Seq<u64>) -> nat
    decreases dts.len(),
{
    if dts.len() == 0 {
        0
    } else {
        (if fire_decision(timer, cooldown, true) {
            1nat
        } else {
            0nat
        }) + shots_fired(timer_after(timer, cooldown, true, dts[0]), cooldown, dts.skip(1))
    }
}

/// While the accumulated elapsed time stays under the cooldown, holding
/// fire produces no laser at all.
pub proof fn lemma_cooldown_blocks(timer: u64, cooldown: u64, dts: Seq<u64>)
    requires
        timer + dts_sum(dts) < cooldown,
    ensures
        shots_fired(timer, cooldown, dts) == 0,
    decreases dts.len(),
{
    if dts.len() > 0 {
        lemma_dts_sum_nonneg(dts.skip(1));
        assert(!fire_decision(timer, cooldown, true));
        lemma_cooldown_blocks((timer + dts[0]) as u64, cooldown, dts.skip(1));
    }
}

/// Cooldown gating: with the timer ready, holding fire over a run of
/// frames whose elapsed times after the first total less than the cooldown
/// produces exactly one laser — the first frame fires and resets the
/// timer to zero, and no later frame reaches the cooldown again.
pub proof fn lemma_cooldown_gating(timer: u64, cooldown: u64, dts: Seq<u64>)
    requires
        dts.len() >= 1,
        timer >= cooldown,
        dts_sum(dts.skip(1)) < cooldown,
    ensures
        shots_fired(timer, cooldown, dts) == 1,
{
    assert(fire_decision(timer, cooldown, true));
    assert(timer_after(timer, cooldown, true, dts[0]) == 0);
    lemma_cooldown_blocks(0, cooldown, dts.skip(1));
}

/// Every laser risen `dist` units up the screen.
pub open spec fn risen_all(s: Seq<Laser>, dist: int) -> Seq<Laser> {
    s.map_values(|l: Laser| l.risen(dist))
}

/// Every bullet advanced by its own velocity over `dist` units.
pub open spec fn stepped_all(s: Seq<Bullet>, dist: int) -> Seq<Bullet> {
    s.map_values(|b: Bullet| b.stepped(dist))
}

/// How many lasers' hitboxes strictly overlap `target`.
pub open spec fn laser_hits(s: Seq<Laser>, target: Rect) -> nat
    decreases s.len(),
{
    if s.len() == 0 {
        0
    } else {
        laser_hits(s.drop_last(), target) + if overlaps_spec(laser_box(s.last()), target) {
            1nat
        } else {
            0nat
        }
    }
}

/// How many bullets' hitboxes strictly overlap `target`.
pub open spec fn bullet_hits(s: Seq<Bullet>, target: Rect) -> nat
    decreases s.len(),
{
    if s.len() == 0 {
        0
    } else {
        bullet_hits(s.drop_last(), target) + if overlaps_spec(bullet_box(s.last()), target) {
            1nat
        } else {
            0nat
        }
    }
}

/// A health counter after `hits` consecutive hits of `dmg` damage each,
/// each one saturating at zero.
pub open spec fn drained(h: u16, hits: nat, dmg: u16) -> u16
    decreases hits,
{
    if hits == 0 {
        h
    } else {
        apply_damage_spec(drained(h, (hits - 1) as nat, dmg), dmg)
    }
}

/// Damage only ever lowers a health counter.
pub proof fn lemma_drained_le(h: u16, hits: nat, dmg: u16)
    ensures
        drained(h, hits, dmg) <= h,
    decreases hits,
{
    if hits > 0 {
        lemma_drained_le(h, (hits - 1) as nat, dmg);
    }
}

/// A laser survives the frame if it is still on screen and has not hit the
/// sky core.
pub open spec fn laser_kept(l: Laser, screen: ScreenDims, core_hitbox: Rect) -> bool {
    overlaps_spec(laser_box(l), screen.rect_spec()) && !overlaps_spec(laser_box(l), core_hitbox)
}

/// A bullet survives the frame if it is still on screen and has not hit the
/// ship.
pub open spec fn bullet_kept(b: Bullet, screen: ScreenDims, ship_hitbox: Rect) -> bool {
    overlaps_spec(bullet_box(b), screen.rect_spec()) && !overlaps_spec(bullet_box(b), ship_hitbox)
}

/// The lasers that survive the frame, in their original order.
pub open spec fn culled_lasers(s: Seq<Laser>, screen: ScreenDims, core_hitbox: Rect) -> Seq<Laser>
    decreases s.len(),
{
    if s.len() == 0 {
        Seq::empty()
    } else {
        let pre = culled_lasers(s.drop_last(), screen, core_hitbox);
        if laser_kept(s.last(), screen, core_hitbox) {
            pre.push(s.last())
        } else {
            pre
        }
    }
}

/// The bullets that survive the frame, in their original order.
pub open spec fn culled_bullets(s: Seq<Bullet>, screen: ScreenDims, ship_hitbox: Rect) -> Seq<
    Bullet,
>
    decreases s.len(),
{
    if s.len() == 0 {
        Seq::empty()
    } else {
        let pre = culled_bullets(s.drop_last(), screen, ship_hitbox);
        if bullet_kept(s.last(), screen, ship_hitbox) {
            pre.push(s.last())
        } else {
            pre
        }
    }
}

/// The ship after one frame of motion: velocity recomputed from input, the
/// position advanced by it and clamped back onto the screen.
pub open spec fn moved_ship_spec(ship: Ship, input: Input, dist: int, screen: ScreenDims) -> Ship {
    let v = input_velocity_spec(input.left, input.right, input.up, input.down);
    let stepped = Ship { velocity: v, pos: stepped_point_spec(ship.pos, v, dist), ..ship };
    stepped.clamped_to(screen)
}

/// The sky core after one frame of motion: it marches down while still
/// above the screen's vertical centre and holds once there.
pub open spec fn moved_core_spec(core: SkyCore, dist: int, screen: ScreenDims) -> SkyCore {
    if core.pos.y < screen.h as int / 2 {
        core.stepped(dist)
    } else {
        core
    }
}

/// The lasers in flight after this frame's fire and motion stages: the
/// laser fired from the moved ship, if the cooldown allowed one, joins the
/// existing lasers, and all of them rise by the frame's laser distance.
pub open spec fn frame_lasers(m: RoundModel, input: Input, dt: u64, screen: ScreenDims) -> Seq<
    Laser,
> {
    let c = m.config;
    let ship1 = moved_ship_spec(m.ship, input, c.ship_speed * dt, screen);
    let lasers1 = if fire_decision(m.timer, c.laser_cooldown_ms, input.fire) {
        m.lasers.push(Laser { pos: ship1.pos, extent: c.laser_extent })
    } else {
        m.lasers
    };
    risen_all(lasers1, c.laser_speed * dt)
}

/// What a frame of active play concluded: pausing, continuing, or a
/// termination condition.
#[derive(Clone, Copy, Debug, PartialEq, Eq, Structural)]
pub enum StepOutcome {
    /// The pause action was held; nothing was simulated.
    Paused,
    /// Play goes on.
    Continue,
    /// The ship's health reached zero and the sky core's did not.
    Died,
    /// The sky core's health reached zero and the ship's did not.
    Won,
    /// Both health counters reached zero in the same frame, which the
    /// design treats as a contradiction rather than adjudicating it.
    BothDied,
}

/// The outcome the health counters dictate at the end of a frame.
pub open spec fn outcome_of(ship_health: u16, core_health: u16) -> StepOutcome {
    if ship_health == 0 && core_health == 0 {
        StepOutcome::BothDied
    } else if ship_health == 0 {
        StepOutcome::Died
    } else if core_health == 0 {
        StepOutcome::Won
    } else {
        StepOutcome::Continue
    }
}

/// The mathematical state of a round: the exec state with the entity
/// vectors abstracted to sequences.
#[verifier::ext_equal]
pub struct RoundModel {
    pub config: Config,
    pub ship: Ship,
    pub lasers: Seq<Laser>,
    pub sky_core: SkyCore,
    pub bullets: Seq<Bullet>,
    pub timer: u64,
}

impl RoundModel {
    /// Round states the simulation maintains: everything within its bounds,
    /// health at most each kind's maximum, and the sky core still on its
    /// fixed downward course.
    pub open spec fn wf(self) -> bool {
        &&& self.config.wf()
        &&& self.ship.wf()
        &&& self.sky_core.wf()
        &&& self.sky_core.velocity == (Vector { x: 0i64, y: UNIT })
        &&& forall|i: int|
            0 <= i < self.lasers.len() ==> (#[trigger] self.lasers[i]).wf()
        &&& forall|i: int|
            0 <= i < self.bullets.len() ==> (#[trigger] self.bullets[i]).wf()
    }

    /// A fresh round: ship centred a fixed offset above the bottom edge,
    /// sky core at the top centre, no projectiles, and the cooldown already
    /// elapsed so the first shot is available at once.
    pub open spec fn initial(config: Config, screen: ScreenDims) -> RoundModel {
        RoundModel {
            config,
            ship: Ship {
                pos: Point {
                    x: (screen.w as int / 2) as i64,
                    y: (screen.h - config.ship_offset_from_bottom) as i64,
                },
                velocity: Vector { x: 0, y: UNIT },
                extent: config.ship_extent,
                health: SHIP_MAX_HEALTH,
            },
            lasers: Seq::empty(),
            sky_core: SkyCore {
                pos: Point { x: (screen.w as int / 2) as i64, y: 0 },
                velocity: Vector { x: 0, y: UNIT },
                extent: config.sky_core_extent,
                health: SKY_CORE_MAX_HEALTH,
            },
            bullets: Seq::empty(),
            timer: config.laser_cooldown_ms,
        }
    }

    /// One frame of active play, stage by stage, in the exact order the
    /// update performs them.
    pub open spec fn stepped(
        self,
        input: Input,
        dt: u64,
        screen: ScreenDims,
        s: FrameSamples,
    ) -> RoundModel {
        let c = self.config;
        // The ship moves by input and is clamped to the screen.
        let ship1 = moved_ship_spec(self.ship, input, c.ship_speed * dt, screen);
        // A laser is fired from the moved ship if the cooldown allows.
        let fired = fire_decision(self.timer, c.laser_cooldown_ms, input.fire);
        let timer1 = timer_after(self.timer, c.laser_cooldown_ms, input.fire, dt);
        // Every laser, the new one included, rises up the screen.
        let lasers2 = frame_lasers(self, input, dt, screen);
        // The sky core takes a point of damage from every laser that now
        // overlaps its hitbox; there is no invulnerability window.
        let core1 = self.sky_core.with_health(
            drained(self.sky_core.health, laser_hits(lasers2, core_box(self.sky_core)), LASER_DAMAGE),
        );
        // On a zero spawn roll the core fires a bullet from its current
        // position with the randomised velocity.
        let bullets1 = if s.roll == 0 {
            self.bullets.push(
                Bullet {
                    pos: core1.pos,
                    velocity: bullet_velocity_spec(s.dir_x as int, s.dir_y as int, s.mag as int),
                    extent: c.bullet_extent,
                },
            )
        } else {
            self.bullets
        };
        // The core marches down until the vertical centre.
        let core2 = moved_core_spec(core1, c.sky_core_speed * dt, screen);
        // Every bullet, the new one included, moves by its velocity.
        let bullets2 = stepped_all(bullets1, c.bullet_speed * dt);
        // The ship takes a point of damage from every bullet that now
        // overlaps its hitbox.
        let ship2 = ship1.with_health(
            drained(ship1.health, bullet_hits(bullets2, ship_box(ship1)), BULLET_DAMAGE),
        );
        // Projectiles that left the screen or hit their target are culled.
        let lasers3 = culled_lasers(lasers2, screen, core_box(core2));
        let bullets3 = culled_bullets(bullets2, screen, ship_box(ship1));
        RoundModel {
            config: c,
            ship: ship2,
            lasers: lasers3,
            sky_core: core2,
            bullets: bullets3,
            timer: timer1,
        }
    }
}

/// The live state of one round of play.
pub struct Round {
    pub config: Config,
    pub ship: Ship,
    pub lasers: Vec<Laser>,
    pub sky_core: SkyCore,
    pub bullets: Vec<Bullet>,
    /// Milliseconds since the player last fired.
    pub time_since_shot_laser: u64,
}

impl View for Round {
    type V = RoundModel;

    open spec fn view(&self) -> RoundModel {
        RoundModel {
            config: self.config,
            ship: self.ship,
            lasers: self.lasers@,
            sky_core: self.sky_core,
            bullets: self.bullets@,
            timer: self.time_since_shot_laser,
        }
    }
}

/// The travelled length for one frame: a speed in pixels per second times
/// the elapsed milliseconds is exactly a distance in units.
fn frame_dist(speed: u32, dt: u64) -> (d: u64)
    requires
        speed <= SPEED_LIMIT,
        dt <= DT_LIMIT,
    ensures
        d == speed * dt,
        d <= DIST_LIMIT,
{
    proof {
        assert(speed * dt <= 100_000_000) by (nonlinear_arith)
            requires
                0 <= speed <= SPEED_LIMIT,
                0 <= dt <= DT_LIMIT,
        ;
    }
    (speed as u64) * dt
}

/// Move every laser `dist` units up the screen.
fn rise_all(lasers: &mut Vec<Laser>, dist: u64)
    requires
        dist <= DIST_LIMIT,
        forall|i: int| 0 <= i < old(lasers)@.len() ==> (#[trigger] old(lasers)@[i]).wf(),
    ensures
        final(lasers)@ == risen_all(old(lasers)@, dist as int),
        forall|i: int|
            0 <= i < final(lasers)@.len() ==> (#[trigger] final(lasers)@[i]).pos.wf(MID_POS_LIMIT)
                && final(lasers)@[i].extent.wf(),
{
    let ghost orig = lasers@;
    let mut out: Vec<Laser> = Vec::new();
    let n = lasers.len();
    for i in 0..n
        invariant
            n == lasers.len(),
            lasers@ == orig,
            dist <= DIST_LIMIT,
            forall|k: int| 0 <= k < orig.len() ==> (#[trigger] orig[k]).wf(),
            out@.len() == i,
            forall|j: int| 0 <= j < i ==> out@[j] == (#[trigger] orig[j]).risen(dist as int),
            forall|j: int|
                0 <= j < i ==> (#[trigger] out@[j]).pos.wf(MID_POS_LIMIT) && out@[j].extent.wf(),
    {
        let mut l = lasers[i];
        l.rise(dist);
        out.push(l);
    }
    *lasers = out;
    proof {
        assert(lasers@ =~= risen_all(orig, dist as int));
    }
}

/// Advance every bullet by its own velocity over `dist` units.
fn step_all_bullets(bullets: &mut Vec<Bullet>, dist: u64)
    requires
        dist <= DIST_LIMIT,
        forall|i: int| 0 <= i < old(bullets)@.len() ==> (#[trigger] old(bullets)@[i]).wf(),
    ensures
        final(bullets)@ == stepped_all(old(bullets)@, dist as int),
        forall|i: int|
            0 <= i < final(bullets)@.len() ==> (#[trigger] final(bullets)@[i]).pos.wf(
                MID_POS_LIMIT,
            ) && final(bullets)@[i].extent.wf() && final(bullets)@[i].velocity.wf(),
{
    let ghost orig = bullets@;
    let mut out: Vec<Bullet> = Vec::new();
    let n = bullets.len();
    for i in 0..n
        invariant
            n == bullets.len(),
            bullets@ == orig,
            dist <= DIST_LIMIT,
            forall|k: int| 0 <= k < orig.len() ==> (#[trigger] orig[k]).wf(),
            out@.len() == i,
            forall|j: int| 0 <= j < i ==> out@[j] == (#[trigger] orig[j]).stepped(dist as int),
            forall|j: int|
                0 <= j < i ==> (#[trigger] out@[j]).pos.wf(MID_POS_LIMIT) && out@[j].extent.wf()
                    && out@[j].velocity.wf(),
    {
        let mut b = bullets[i];
        b.step_distance(dist);
        proof {
            crate::numeric::lemma_scaled_delta_bounds(bullets@[i as int].velocity.x as int, dist as int);
            crate::numeric::lemma_scaled_delta_bounds(bullets@[i as int].velocity.y as int, dist as int);
        }
        out.push(b);
    }
    *bullets = out;
    proof {
        assert(bullets@ =~= stepped_all(orig, dist as int));
    }
}

/// Let the sky core take a point of damage from every laser whose hitbox
/// overlaps `target`.
fn apply_laser_hits(core: &mut SkyCore, lasers: &Vec<Laser>, target: Rect)
    requires
        forall|i: int|
            0 <= i < lasers@.len() ==> (#[trigger] lasers@[i]).pos.wf(MID_POS_LIMIT) && lasers@[
                i
            ].extent.wf(),
    ensures
        *final(core) == old(core).with_health(
            drained(old(core).health, laser_hits(lasers@, target), LASER_DAMAGE),
        ),
{
    let n = lasers.len();
    for i in 0..n
        invariant
            n == lasers.len(),
            forall|k: int|
                0 <= k < lasers@.len() ==> (#[trigger] lasers@[k]).pos.wf(MID_POS_LIMIT)
                    && lasers@[k].extent.wf(),
            *core == old(core).with_health(
                drained(old(core).health, laser_hits(lasers@.take(i as int), target), LASER_DAMAGE),
            ),
    {
        let l = lasers[i];
        let hit = l.hitbox().overlaps(&target);
        proof {
            assert(lasers@.take(i + 1).drop_last() =~= lasers@.take(i as int));
            assert(lasers@.take(i + 1).last() == lasers@[i as int]);
        }
        if hit {
            core.take_damage(&l);
        }
    }
    proof {
        assert(lasers@.take(n as int) =~= lasers@);
    }
}

/// Let the ship take a point of damage from every bullet whose hitbox
/// overlaps `target`.
fn apply_bullet_hits(ship: &mut Ship, bullets: &Vec<Bullet>, target: Rect)
    requires
        forall|i: int|
            0 <= i < bullets@.len() ==> (#[trigger] bullets@[i]).pos.wf(MID_POS_LIMIT) && bullets@[
                i
            ].extent.wf(),
    ensures
        *final(ship) == old(ship).with_health(
            drained(old(ship).health, bullet_hits(bullets@, target), BULLET_DAMAGE),
        ),
{
    let n = bullets.len();
    for i in 0..n
        invariant
            n == bullets.len(),
            forall|k: int|
                0 <= k < bullets@.len() ==> (#[trigger] bullets@[k]).pos.wf(MID_POS_LIMIT)
                    && bullets@[k].extent.wf(),
            *ship == old(ship).with_health(
                drained(
                    old(ship).health,
                    bullet_hits(bullets@.take(i as int), target),
                    BULLET_DAMAGE,
                ),
            ),
    {
        let b = bullets[i];
        let hit = b.hitbox().overlaps(&target);
        proof {
            assert(bullets@.take(i + 1).drop_last() =~= bullets@.take(i as int));
            assert(bullets@.take(i + 1).last() == bullets@[i as int]);
        }
        if hit {
            ship.take_damage(&b);
        }
    }
    proof {
        assert(bullets@.take(n as int) =~= bullets@);
    }
}

/// Keep only the lasers that survive the frame; the survivors are back
/// within the stored-position bound, since their hitboxes still touch the
/// screen.
fn cull_lasers(lasers: &mut Vec<Laser>, screen: ScreenDims, core_hitbox: Rect)
    requires
        screen.wf(),
        forall|i: int|
            0 <= i < old(lasers)@.len() ==> (#[trigger] old(lasers)@[i]).pos.wf(MID_POS_LIMIT)
                && old(lasers)@[i].extent.wf(),
    ensures
        final(lasers)@ == culled_lasers(old(lasers)@, screen, core_hitbox),
        forall|i: int| 0 <= i < final(lasers)@.len() ==> (#[trigger] final(lasers)@[i]).wf(),
{
    let ghost orig = lasers@;
    let mut out: Vec<Laser> = Vec::new();
    let n = lasers.len();
    for i in 0..n
        invariant
            n == lasers.len(),
            lasers@ == orig,
            screen.wf(),
            forall|k: int|
                0 <= k < orig.len() ==> (#[trigger] orig[k]).pos.wf(MID_POS_LIMIT)
                    && orig[k].extent.wf(),
            out@ == culled_lasers(orig.take(i as int), screen, core_hitbox),
            forall|j: int| 0 <= j < out@.len() ==> (#[trigger] out@[j]).wf(),
    {
        let l = lasers[i];
        let keep = l.is_on_screen(screen.rect()) && !l.hitbox().overlaps(&core_hitbox);
        proof {
            assert(orig.take(i + 1).drop_last() =~= orig.take(i as int));
            assert(orig.take(i + 1).last() == orig[i as int]);
            if laser_kept(orig[i as int], screen, core_hitbox) {
                lemma_hitbox_bounds(l.pos, l.extent, <Laser as Hitbox>::tuning_spec());
            }
        }
        if keep {
            out.push(l);
        }
    }
    proof {
        assert(orig.take(n as int) =~= orig);
    }
    *lasers = out;
}

impl Round {
    pub open spec fn wf(self) -> bool {
        self@.wf()
    }

    /// Start a fresh round on the given screen.
    pub fn new(config: Config, screen: ScreenDims) -> (r: Round)
        requires
            config.wf(),
            screen.wf(),
        ensures
            r@ == RoundModel::initial(config, screen),
            r.wf(),
    {
        let ship = Ship::new(
            Point { x: half_nonneg(screen.w), y: screen.h - config.ship_offset_from_bottom },
            config.ship_extent,
        );
        let sky_core = SkyCore::new(screen, config.sky_core_extent);
        let r = Round {
            config,
            ship,
            lasers: Vec::new(),
            sky_core,
            bullets: Vec::new(),
            time_since_shot_laser: config.laser_cooldown_ms,
        };
        proof {
            assert(r@ =~= RoundModel::initial(config, screen));
        }
        r
    }

    /// Runtime check of `wf`, for callers outside the verified world.
    pub fn is_well_formed(&self) -> (b: bool)
        ensures
            b == self.wf(),
    {
        if !(self.config.is_wf() && self.ship.is_wf() && self.sky_core.is_wf()
            && self.sky_core.velocity.x == 0 && self.sky_core.velocity.y == UNIT) {
            return false;
        }
        let n = self.lasers.len();
        for i in 0..n
            invariant
                n == self.lasers.len(),
                forall|j: int| 0 <= j < i ==> (#[trigger] self.lasers@[j]).wf(),
        {
            if !self.lasers[i].is_wf() {
                proof {
                    assert(!(self@.lasers[i as int]).wf());
                }
                return false;
            }
        }
        let m = self.bullets.len();
        for i in 0..m
            invariant
                m == self.bullets.len(),
                forall|j: int| 0 <= j < i ==> (#[trigger] self.bullets@[j]).wf(),
        {
            if !self.bullets[i].is_wf() {
                proof {
                    assert(!(self@.bullets[i as int]).wf());
                }
                return false;
            }
        }
        true
    }

    /// One frame of active play. If the pause action is held, nothing is
    /// simulated and the round is untouched; otherwise the round advances
    /// to exactly the model's next state and the outcome reports what the
    /// health counters dictate.
    pub fn step_playing(
        &mut self,
        input: Input,
        dt: u64,
        screen: ScreenDims,
        s: FrameSamples,
    ) -> (o: StepOutcome)
        requires
            old(self).wf(),
            dt <= DT_LIMIT,
            screen.wf(),
            s.wf(),
        ensures
            input.pause ==> o == StepOutcome::Paused && *final(self) == *old(self),
            !input.pause ==> {
                let m = old(self)@.stepped(input, dt, screen, s);
                &&& final(self)@ == m
                &&& o == outcome_of(m.ship.health, m.sky_core.health)
                &&& final(self).wf()
            },
    {
        if input.pause {
            return StepOutcome::Paused;
        }
        // Move the ship by the held directions and keep it on screen.
        let dist_ship = frame_dist(self.config.ship_speed, dt);
        self.ship.velocity = input_velocity(input.left, input.right, input.up, input.down);
        self.ship.step_distance(dist_ship);
        self.ship.clamp_pos_to_screen(screen);
        // Fire a laser if the cooldown has elapsed, else accumulate time.
        if input.fire && self.time_since_shot_laser >= self.config.laser_cooldown_ms {
            let l = self.ship.shoot(self.config.laser_extent);
            self.lasers.push(l);
            self.time_since_shot_laser = 0;
        } else {
            self.time_since_shot_laser = sat_add_u64(self.time_since_shot_laser, dt);
        }
        // Lasers move up the screen.
        let dist_laser = frame_dist(self.config.laser_speed, dt);
        rise_all(&mut self.lasers, dist_laser);
        // The sky core takes damage from every laser that hits it.
        let core_box0 = self.sky_core.hitbox();
        let ghost core_h0 = self.sky_core.health;
        apply_laser_hits(&mut self.sky_core, &self.lasers, core_box0);
        proof {
            lemma_drained_le(core_h0, laser_hits(self.lasers@, core_box0), LASER_DAMAGE);
        }
        // On a zero roll the core fires a bullet.
        if s.roll == 0 {
            let b = self.sky_core.shoot(self.config.bullet_extent, s.dir_x, s.dir_y, s.mag);
            self.bullets.push(b);
        }
        // The core marches down until the screen's vertical centre.
        let dist_core = frame_dist(self.config.sky_core_speed, dt);
        let half_h = half_nonneg(screen.h);
        proof {
            vstd::arithmetic::div_mod::lemma_div_by_multiple(dist_core as int, 1000);
            assert(crate::numeric::scaled_delta_spec(UNIT as int, dist_core as int)
                == dist_core as int);
            assert(crate::numeric::scaled_delta_spec(0, dist_core as int) == 0);
        }
        if self.sky_core.pos.y < half_h {
            self.sky_core.step_distance(dist_core);
        }
        // Bullets move by their stored velocities.
        let dist_bullet = frame_dist(self.config.bullet_speed, dt);
        step_all_bullets(&mut self.bullets, dist_bullet);
        // The ship takes damage from every bullet that hits it.
        let ship_box1 = self.ship.hitbox();
        let ghost ship_h1 = self.ship.health;
        apply_bullet_hits(&mut self.ship, &self.bullets, ship_box1);
        proof {
            lemma_drained_le(ship_h1, bullet_hits(self.bullets@, ship_box1), BULLET_DAMAGE);
        }
        let ship_dead = self.ship.is_dead();
        let core_dead = self.sky_core.is_dead();
        // Cull projectiles that left the screen or hit their target.
        let core_box2 = self.sky_core.hitbox();
        cull_bullets(&mut self.bullets, screen, ship_box1);
        cull_lasers(&mut self.lasers, screen, core_box2);
        proof {
            assert(self@ =~= old(self)@.stepped(input, dt, screen, s));
        }
        if ship_dead && core_dead {
            StepOutcome::BothDied
        } else if ship_dead {
            StepOutcome::Died
        } else if core_dead {
            StepOutcome::Won
        } else {
            StepOutcome::Continue
        }
    }
}

/// Keep only the bullets that survive the frame; the survivors are back
/// within the stored-position bound.
fn cull_bullets(bullets: &mut Vec<Bullet>, screen: ScreenDims, ship_hitbox: Rect)
    requires
        screen.wf(),
        forall|i: int|
            0 <= i < old(bullets)@.len() ==> (#[trigger] old(bullets)@[i]).pos.wf(MID_POS_LIMIT)
                && old(bullets)@[i].extent.wf() && old(bullets)@[i].velocity.wf(),
    ensures
        final(bullets)@ == culled_bullets(old(bullets)@, screen, ship_hitbox),
        forall|i: int| 0 <= i < final(bullets)@.len() ==> (#[trigger] final(bullets)@[i]).wf(),
{
    let ghost orig = bullets@;
    let mut out: Vec<Bullet> = Vec::new();
    let n = bullets.len();
    for i in 0..n
        invariant
            n == bullets.len(),
            bullets@ == orig,
            screen.wf(),
            forall|k: int|
                0 <= k < orig.len() ==> (#[trigger] orig[k]).pos.wf(MID_POS_LIMIT)
                    && orig[k].extent.wf() && orig[k].velocity.wf(),
            out@ == culled_bullets(orig.take(i as int), screen, ship_hitbox),
            forall|j: int| 0 <= j < out@.len() ==> (#[trigger] out@[j]).wf(),
    {
        let b = bullets[i];
        let keep = b.is_on_screen(screen.rect()) && !b.hitbox().overlaps(&ship_hitbox);
        proof {
            assert(orig.take(i + 1).drop_last() =~= orig.take(i as int));
            assert(orig.take(i + 1).last() == orig[i as int]);
            if bullet_kept(orig[i as int], screen, ship_hitbox) {
                lemma_hitbox_bounds(b.pos, b.extent, <Bullet as Hitbox>::tuning_spec());
            }
        }
        if keep {
            out.push(b);
        }
    }
    proof {
        assert(orig.take(n as int) =~= orig);
    }
    *bullets = out;
}

/// A run of frames of the round model, every frame with the same held
/// input, screen and random samples, and the elapsed times from `dts`.
pub open spec fn run_model(
    m: RoundModel,
    input: Input,
    dts: Seq<u64>,
    screen: ScreenDims,
    s: FrameSamples,
) -> RoundModel
    decreases dts.len(),
{
    if dts.len() == 0 {
        m
    } else {
        run_model(m.stepped(input, dts[0], screen, s), input, dts.skip(1), screen, s)
    }
}

/// How many frames of such a run fire a laser.
pub open spec fn run_shots(
    m: RoundModel,
    input: Input,
    dts: Seq<u64>,
    screen: ScreenDims,
    s: FrameSamples,
) -> nat
    decreases dts.len(),
{
    if dts.len() == 0 {
        0
    } else {
        (if fire_decision(m.timer, m.config.laser_cooldown_ms, input.fire) {
            1nat
        } else {
            0nat
        }) + run_shots(m.stepped(input, dts[0], screen, s), input, dts.skip(1), screen, s)
    }
}

/// The round's fire accounting is exactly the cooldown subsystem's: over a
/// run of frames with fire held, the round fires as many lasers as
/// `shots_fired` counts from the timer alone — nothing else in the round
/// influences the decision.
pub proof fn lemma_run_matches_cooldown(
    m: RoundModel,
    input: Input,
    dts: Seq<u64>,
    screen: ScreenDims,
    s: FrameSamples,
)
    requires
        input.fire,
    ensures
        run_shots(m, input, dts, screen, s) == shots_fired(
            m.timer,
            m.config.laser_cooldown_ms,
            dts,
        ),
    decreases dts.len(),
{
    if dts.len() > 0 {
        let m2 = m.stepped(input, dts[0], screen, s);
        assert(m2.timer == timer_after(m.timer, m.config.laser_cooldown_ms, input.fire, dts[0]));
        assert(m2.config == m.config);
        lemma_run_matches_cooldown(m2, input, dts.skip(1), screen, s);
    }
}

/// Cooldown gating at the round level: from a ready timer, a run of
/// held-fire frames whose elapsed times after the first total less than
/// the cooldown fires exactly one laser.
pub proof fn lemma_round_cooldown_gating(
    m: RoundModel,
    input: Input,
    dts: Seq<u64>,
    screen: ScreenDims,
    s: FrameSamples,
)
    requires
        input.fire,
        dts.len() >= 1,
        m.timer >= m.config.laser_cooldown_ms,
        dts_sum(dts.skip(1)) < m.config.laser_cooldown_ms,
    ensures
        run_shots(m, input, dts, screen, s) == 1,
{
    lemma_run_matches_cooldown(m, input, dts, screen, s);
    lemma_cooldown_gating(m.timer, m.config.laser_cooldown_ms, dts);
}

/// Consecutive saturating hits amount to one saturating subtraction of the
/// total damage: `hits` hits of `dmg` each leave `max(0, h - hits * dmg)`.
pub proof fn lemma_drained_exact(h: u16, hits: nat, dmg: u16)
    ensures
        drained(h, hits, dmg) as int == vstd::math::max(0, h - hits * dmg),
    decreases hits,
{
    if hits > 0 {
        let k1 = (hits - 1) as nat;
        assert(k1 == hits - 1);
        lemma_drained_exact(h, k1, dmg);
        assert(k1 * dmg == hits * dmg - dmg) by (nonlinear_arith)
            requires
                k1 == hits - 1,
        ;
        assert(0 <= k1 * dmg) by (nonlinear_arith)
            requires
                0 <= k1,
                0 <= dmg,
        ;
        let t = drained(h, k1, dmg);
        assert(drained(h, hits, dmg) == apply_damage_spec(t, dmg));
        assert(t as int == vstd::math::max(0, h - k1 * dmg));
        if dmg < t {
            assert(drained(h, hits, dmg) as int == t - dmg);
        } else {
            assert(drained(h, hits, dmg) as int == 0);
        }
    } else {
        assert(hits * dmg == 0) by (nonlinear_arith)
            requires
                hits == 0,
        ;
    }
}

/// Every laser that survives a cull was kept for a reason: it still
/// overlaps the screen and misses the target hitbox.
pub proof fn lemma_culled_lasers_kept(s: Seq<Laser>, screen: ScreenDims, core_hitbox: Rect)
    ensures
        forall|i: int|
            0 <= i < culled_lasers(s, screen, core_hitbox).len() ==> laser_kept(
                #[trigger] culled_lasers(s, screen, core_hitbox)[i],
                screen,
                core_hitbox,
            ),
    decreases s.len(),
{
    if s.len() > 0 {
        lemma_culled_lasers_kept(s.drop_last(), screen, core_hitbox);
        let c = culled_lasers(s, screen, core_hitbox);
        let pre = culled_lasers(s.drop_last(), screen, core_hitbox);
        if laser_kept(s.last(), screen, core_hitbox) {
            assert(c == pre.push(s.last()));
            assert forall|i: int| 0 <= i < c.len() implies laser_kept(
                c[i],
                screen,
                core_hitbox,
            ) by {
                if i < pre.len() {
                    assert(c[i] == pre[i]);
                } else {
                    assert(c[i] == s.last());
                }
            }
        } else {
            assert(c == pre);
        }
    }
}

/// Laser resolution in one frame, with the sky core holding (at or past
/// the screen's vertical centre, so its hitbox is the same when damage is
/// counted and when lasers are culled): the core loses exactly one point
/// of laser damage per laser whose hitbox overlaps its own after this
/// frame's motion, saturating at zero, and every laser still present
/// after the frame misses the core's hitbox — a laser that damages the
/// core never survives to damage it again.
pub proof fn lemma_step_laser_resolution(
    m: RoundModel,
    input: Input,
    dt: u64,
    screen: ScreenDims,
    s: FrameSamples,
)
    requires
        m.sky_core.pos.y >= screen.h as int / 2,
    ensures
        ({
            let m2 = m.stepped(input, dt, screen, s);
            let target = core_box(m.sky_core);
            let hits = laser_hits(frame_lasers(m, input, dt, screen), target);
            &&& m2.sky_core.health as int == vstd::math::max(
                0,
                m.sky_core.health - hits * LASER_DAMAGE,
            )
            &&& forall|i: int|
                0 <= i < m2.lasers.len() ==> !overlaps_spec(
                    laser_box(#[trigger] m2.lasers[i]),
                    target,
                )
        }),
{
    let m2 = m.stepped(input, dt, screen, s);
    let target = core_box(m.sky_core);
    let lasers2 = frame_lasers(m, input, dt, screen);
    let hits = laser_hits(lasers2, target);
    let core1 = m.sky_core.with_health(drained(m.sky_core.health, hits, LASER_DAMAGE));
    // Damage leaves the core's position alone, so a core at or past the
    // centre does not move and its hitbox is unchanged.
    assert(moved_core_spec(core1, m.config.sky_core_speed * dt, screen) == core1);
    assert(core_box(core1) == target);
    lemma_drained_exact(m.sky_core.health, hits, LASER_DAMAGE);
    lemma_culled_lasers_kept(lasers2, screen, target);
}

/// With a zero cooldown, holding fire fires a laser on every frame of a
/// run: as many lasers are created as there are frames.
pub proof fn lemma_zero_cooldown_fires_every_frame(
    m: RoundModel,
    input: Input,
    dts: Seq<u64>,
    screen: ScreenDims,
    s: FrameSamples,
)
    requires
        input.fire,
        m.config.laser_cooldown_ms == 0,
    ensures
        run_shots(m, input, dts, screen, s) == dts.len(),
    decreases dts.len(),
{
    if dts.len() > 0 {
        let m2 = m.stepped(input, dts[0], screen, s);
        assert(m2.config == m.config);
        assert(fire_decision(m.timer, m.config.laser_cooldown_ms, input.fire));
        lemma_zero_cooldown_fires_every_frame(m2, input, dts.skip(1), screen, s);
    }
}

} // verus!
