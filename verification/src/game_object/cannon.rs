//! The cannon: how its turning speed answers to the held direction, tick by
//! tick, and when it may fire.
//!
//! Angular velocities are whole numbers of an angle unit per unit of time,
//! counted positive in the direction of a left turn. An acceleration times a
//! span of time is an angular velocity: the caller chooses units that agree.

use crate::game_object::missile::Missile;
use crate::game_object::HasPosition;
use crate::input::{is_held, ActionCode};
use crate::util::hash_map_tracker::{HashMapTracker, TrackerError, WithIndex};
use crate::util::message::Message;
use crate::util::vec_extension::{Vec2, UNITS_PER_TILE};
use vstd::prelude::*;

verus! {

/// A direction in which the cannon can turn.
#[derive(Debug, Clone, Copy, PartialEq, Eq, Structural)]
pub enum RotateDir {
    Left,
    Right,
}

impl RotateDir {
    /// The sign of the angular velocity that a turn in this direction adds.
    pub open spec fn sign(self) -> int {
        match self {
            RotateDir::Left => 1,
            RotateDir::Right => -1,
        }
    }

    /// The turn that an action asks for, if it asks for one.
    pub fn from_action(action: ActionCode) -> (r: Option<RotateDir>)
        ensures
            r == (match action {
                ActionCode::TurnLeft => Some(RotateDir::Left),
                ActionCode::TurnRight => Some(RotateDir::Right),
                _ => None,
            }),
    {
        match action {
            ActionCode::TurnLeft => Some(RotateDir::Left),
            ActionCode::TurnRight => Some(RotateDir::Right),
            _ => None,
        }
    }
}

/// What the player asks of the cannon during one tick.
#[derive(Debug, Clone, Copy, PartialEq, Eq, Structural)]
pub struct InputSnapshot {
    /// The direction that is held, if any.
    pub cannon_rotate: Option<RotateDir>,
    /// Whether firing is asked for.
    pub shoot: bool,
}

impl InputSnapshot {
    /// What the held actions ask of the cannon: a left turn if one is held,
    /// else a right turn if one is held, and a shot if one is held.
    pub fn from_actions(held: &Vec<ActionCode>) -> (r: Self)
        ensures
            r.shoot == held@.contains(ActionCode::Shoot),
            r.cannon_rotate == (if held@.contains(ActionCode::TurnLeft) {
                Some(RotateDir::Left)
            } else if held@.contains(ActionCode::TurnRight) {
                Some(RotateDir::Right)
            } else {
                None
            }),
    {
        let cannon_rotate = if is_held(held, ActionCode::TurnLeft) {
            Some(RotateDir::Left)
        } else if is_held(held, ActionCode::TurnRight) {
            Some(RotateDir::Right)
        } else {
            None
        };
        InputSnapshot { cannon_rotate, shoot: is_held(held, ActionCode::Shoot) }
    }
}

/// The rates that shape the cannon's rotation.
#[derive(Debug, Clone, Copy, PartialEq, Eq, Structural)]
pub struct RotationRates {
    /// The largest angular speed, in either direction.
    pub max_rot_per_sec: u32,
    /// The acceleration while a direction is held.
    pub rot_acc: u32,
    /// The deceleration while no direction is held.
    pub rot_de_acc: u32,
}

impl RotationRates {
    /// `vel` brought into the range from `-max_rot_per_sec` to
    /// `max_rot_per_sec`.
    pub open spec fn clamped(&self, vel: int) -> int {
        if vel > self.max_rot_per_sec {
            self.max_rot_per_sec as int
        } else if vel < -self.max_rot_per_sec {
            -self.max_rot_per_sec
        } else {
            vel
        }
    }

    /// Whether a turn in direction `dir` reverses a rotation of velocity
    /// `vel`: the cannon is turning, and turning the other way.
    pub open spec fn reverses(vel: int, dir: RotateDir) -> bool {
        vel * dir.sign() < 0
    }

    /// The magnitude of the acceleration while `dir` is held: on a reversal
    /// the larger of the two rates, otherwise the acceleration.
    pub open spec fn turn_rate(&self, vel: int, dir: RotateDir) -> int {
        if Self::reverses(vel, dir) && self.rot_de_acc > self.rot_acc {
            self.rot_de_acc as int
        } else {
            self.rot_acc as int
        }
    }

    /// The angular velocity after a tick of length `dt` with `dir` held: the
    /// velocity plus the signed acceleration times `dt`, kept within the
    /// largest speed.
    pub open spec fn turned(&self, vel: int, dir: RotateDir, dt: u32) -> int {
        self.clamped(vel + dir.sign() * self.turn_rate(vel, dir) * dt)
    }

    /// The angular velocity after a tick of length `dt` with nothing held:
    /// nearer to zero by the deceleration times `dt`, and exactly zero where
    /// that would reach or cross zero. A speed that is still above the
    /// largest one is brought down to it.
    pub open spec fn braked(&self, vel: int, dt: u32) -> int {
        let loss = self.rot_de_acc * dt;
        if vel > loss {
            self.clamped(vel - loss)
        } else if vel < -loss {
            self.clamped(vel + loss)
        } else {
            0
        }
    }

    /// The angular velocity after one tick of length `dt`.
    pub open spec fn next(&self, vel: int, held: Option<RotateDir>, dt: u32) -> int {
        match held {
            Some(dir) => self.turned(vel, dir, dt),
            None => self.braked(vel, dt),
        }
    }

    /// The angular velocity after one tick of length `dt` for each entry of
    /// `held`, in order.
    pub open spec fn after(&self, vel: int, held: Seq<Option<RotateDir>>, dt: u32) -> int
        decreases held.len(),
    {
        if held.len() == 0 {
            vel
        } else {
            self.after(self.next(vel, held[0], dt), held.drop_first(), dt)
        }
    }

    /// The magnitude of the acceleration while `dir` is held.
    pub fn acceleration(&self, rot_vel: i64, dir: RotateDir) -> (r: u32)
        ensures
            r == self.turn_rate(rot_vel as int, dir),
    {
        let reverses = match dir {
            RotateDir::Left => rot_vel < 0,
            RotateDir::Right => rot_vel > 0,
        };
        if reverses && self.rot_de_acc > self.rot_acc {
            self.rot_de_acc
        } else {
            self.rot_acc
        }
    }

    /// `vel` brought into the range of speeds that the rates allow.
    fn clamp(&self, vel: i128) -> (r: i64)
        ensures
            r == self.clamped(vel as int),
            -self.max_rot_per_sec <= r <= self.max_rot_per_sec,
    {
        let max: i128 = self.max_rot_per_sec as i128;
        if vel > max {
            self.max_rot_per_sec as i64
        } else if vel < -max {
            -(self.max_rot_per_sec as i64)
        } else {
            vel as i64
        }
    }

    /// One tick of length `dt` with `dir` held.
    pub fn turn(&self, rot_vel: i64, dir: RotateDir, dt: u32) -> (r: i64)
        ensures
            r == self.turned(rot_vel as int, dir, dt),
            -self.max_rot_per_sec <= r <= self.max_rot_per_sec,
    {
        let rate: u32 = self.acceleration(rot_vel, dir);
        proof {
            lemma_gain_bounds(rate, dt);
        }
        let gain: i128 = rate as i128 * dt as i128;
        let raised: i128 = match dir {
            RotateDir::Left => rot_vel as i128 + gain,
            RotateDir::Right => rot_vel as i128 - gain,
        };
        proof {
            assert(dir.sign() * self.turn_rate(rot_vel as int, dir) * dt == (match dir {
                RotateDir::Left => gain as int,
                RotateDir::Right => -gain,
            })) by (nonlinear_arith)
                requires
                    gain == self.turn_rate(rot_vel as int, dir) * dt,
                    dir.sign() == 1 || dir.sign() == -1,
                    dir.sign() == 1 <==> dir == RotateDir::Left,
            ;
        }
        self.clamp(raised)
    }

    /// One tick of length `dt` with nothing held.
    pub fn brake(&self, rot_vel: i64, dt: u32) -> (r: i64)
        ensures
            r == self.braked(rot_vel as int, dt),
            -self.max_rot_per_sec <= r <= self.max_rot_per_sec,
    {
        proof {
            lemma_gain_bounds(self.rot_de_acc, dt);
        }
        let loss: i128 = self.rot_de_acc as i128 * dt as i128;
        let vel: i128 = rot_vel as i128;
        if vel > loss {
            self.clamp(vel - loss)
        } else if vel < -loss {
            self.clamp(vel + loss)
        } else {
            0
        }
    }

    /// One tick of length `dt` with `held` as the player's input.
    pub fn step(&self, rot_vel: i64, held: Option<RotateDir>, dt: u32) -> (r: i64)
        ensures
            r == self.next(rot_vel as int, held, dt),
            -self.max_rot_per_sec <= r <= self.max_rot_per_sec,
    {
        match held {
            Some(dir) => self.turn(rot_vel, dir, dt),
            None => self.brake(rot_vel, dt),
        }
    }
}

/// A rate times a span of time has fewer than 64 bits.
proof fn lemma_gain_bounds(rate: u32, dt: u32)
    ensures
        0 <= rate * dt <= 0xffff_ffff_ffff_ffff,
{
    assert(0 <= rate * dt <= 0xffff_ffff_ffff_ffff) by (nonlinear_arith)
        requires
            0 <= rate <= 0xffff_ffff,
            0 <= dt <= 0xffff_ffff,
    ;
}

/// `n` ticks in a row with nothing held.
pub open spec fn released(n: nat) -> Seq<Option<RotateDir>> {
    Seq::new(n, |i: int| None::<RotateDir>)
}

/// After every tick, whatever was held and whatever the velocity was before,
/// the angular speed is at most `max_rot_per_sec`.
pub proof fn lemma_tick_bounds_velocity(
    rates: RotationRates,
    vel: int,
    held: Option<RotateDir>,
    dt: u32,
)
    ensures
        -rates.max_rot_per_sec <= rates.next(vel, held, dt) <= rates.max_rot_per_sec,
{
}

/// After any sequence of ticks, one at least, with arbitrary input, the
/// angular speed is at most `max_rot_per_sec`; and a velocity that was within
/// that bound stays within it over any sequence of ticks.
pub proof fn lemma_velocity_stays_bounded(
    rates: RotationRates,
    vel: int,
    held: Seq<Option<RotateDir>>,
    dt: u32,
)
    ensures
        held.len() >= 1 || -rates.max_rot_per_sec <= vel <= rates.max_rot_per_sec ==> -rates.max_rot_per_sec
            <= rates.after(vel, held, dt) <= rates.max_rot_per_sec,
    decreases held.len(),
{
    if held.len() > 0 {
        lemma_tick_bounds_velocity(rates, vel, held[0], dt);
        lemma_velocity_stays_bounded(rates, rates.next(vel, held[0], dt), held.drop_first(), dt);
    }
}

/// With nothing held the cannon comes to rest, at a velocity of exactly zero,
/// within as many ticks as it takes the deceleration to use up the speed:
/// after any `n` ticks for which `n` times the loss per tick is at least the
/// speed it started from.
pub proof fn lemma_braking_reaches_zero(rates: RotationRates, vel: int, dt: u32, n: nat)
    requires
        n * (rates.rot_de_acc * dt) >= vel,
        n * (rates.rot_de_acc * dt) >= -vel,
    ensures
        rates.after(vel, released(n), dt) == 0,
    decreases n,
{
    let loss = rates.rot_de_acc * dt;
    assert(loss >= 0) by (nonlinear_arith)
        requires
            loss == rates.rot_de_acc * dt,
    ;
    if n == 0 {
        assert(n * loss == 0) by (nonlinear_arith)
            requires
                n == 0,
        ;
    } else {
        let rest = (n - 1) as nat;
        assert(released(n).drop_first() =~= released(rest));
        assert(released(n)[0] == None::<RotateDir>);
        assert(n * loss == rest * loss + loss) by (nonlinear_arith)
            requires
                rest == n - 1,
        ;
        assert(rest * loss >= 0) by (nonlinear_arith)
            requires
                rest >= 0,
                loss >= 0,
        ;
        lemma_braking_reaches_zero(rates, rates.braked(vel, dt), dt, rest);
    }
}

/// Once at rest with nothing held, the cannon stays at rest.
pub proof fn lemma_rest_is_kept(rates: RotationRates, dt: u32, n: nat)
    ensures
        rates.after(0, released(n), dt) == 0,
{
    assert(n * (rates.rot_de_acc * dt) >= 0) by (nonlinear_arith)
        requires
            n >= 0,
            rates.rot_de_acc >= 0,
            dt >= 0,
    ;
    lemma_braking_reaches_zero(rates, 0, dt, n);
}

/// A coordinate of the vector of length `length` that points the way a
/// direction with the coordinate `coordinate` does: `length` times
/// `coordinate`, divided by the length of a direction and rounded toward
/// zero.
pub open spec fn scaled(length: u32, coordinate: i64) -> int {
    let product = length * coordinate;
    if product >= 0 {
        product / (UNITS_PER_TILE as int)
    } else {
        -((-product) / (UNITS_PER_TILE as int))
    }
}

/// A coordinate of the vector of length `length` along a direction.
fn scale(length: u32, coordinate: i64) -> (r: i128)
    ensures
        r == scaled(length, coordinate),
        -0x8000_0000_0000_0000_0000_0000 <= r <= 0x8000_0000_0000_0000_0000_0000,
{
    proof {
        lemma_reach_bounds(length, coordinate);
    }
    let unit: u128 = UNITS_PER_TILE as u128;
    let product: i128 = length as i128 * coordinate as i128;
    if product >= 0 {
        ((product as u128) / unit) as i128
    } else {
        -((((-product) as u128) / unit) as i128)
    }
}

/// Everything about the cannon that can be tuned.
#[derive(Debug, Clone, Copy, PartialEq, Eq, Structural)]
pub struct CannonTuning {
    /// The speed of a missile: the length units it flies per unit of time.
    pub velocity: u32,
    /// The distance from the cannon to the muzzle, in length units.
    pub barrel_length: u32,
    /// The least time between two shots.
    pub refire_delay: u64,
    /// The rates of rotation.
    pub rates: RotationRates,
}

/// The cannon.
#[derive(Debug, Clone)]
pub struct Cannon {
    facing: Vec2,
    position: Vec2,
    rot_vel: i64,
    refire_block: Message<()>,
}

impl Default for Cannon {
    /// The cannon at the origin, at rest, pointing along the first axis and
    /// free to fire.
    fn default() -> (r: Self)
        ensures
            r.pointing() == (Vec2 { x: UNITS_PER_TILE, y: 0 }),
            r.position() == (Vec2 { x: 0, y: 0 }),
            r.rotation() == 0,
            r.refire() == Message::<()>::Inactive,
    {
        Cannon {
            facing: Vec2::unit_x(),
            position: Vec2 { x: 0, y: 0 },
            rot_vel: 0,
            refire_block: Message::Inactive,
        }
    }
}

impl HasPosition for Cannon {
    closed spec fn position(&self) -> Vec2 {
        self.position
    }

    closed spec fn moved_to(self, position: Vec2) -> Self {
        Cannon { position, ..self }
    }

    fn position_set(self, position: Vec2) -> (r: Self)
        ensures
            r.pointing() == self.pointing(),
            r.rotation() == self.rotation(),
            r.refire() == self.refire(),
    {
        let mut moved = self;
        moved.position = position;
        moved
    }

    fn position_get(&self) -> (r: Vec2) {
        self.position
    }
}

impl Cannon {
    /// The direction in which the cannon points, as a mathematical value.
    pub closed spec fn pointing(&self) -> Vec2 {
        self.facing
    }

    /// The angular velocity, as a mathematical value.
    pub closed spec fn rotation(&self) -> i64 {
        self.rot_vel
    }

    /// The refire block, which keeps the cannon from firing while it is active.
    pub closed spec fn refire(&self) -> Message<()> {
        self.refire_block
    }

    /// Whether a missile fired now has coordinates and a velocity in range.
    pub open spec fn spawn_fits(&self, tuning: &CannonTuning) -> bool {
        &&& i64::MIN <= self.spawn_position(tuning).0 <= i64::MAX
        &&& i64::MIN <= self.spawn_position(tuning).1 <= i64::MAX
        &&& i64::MIN <= self.spawn_velocity(tuning).0 <= i64::MAX
        &&& i64::MIN <= self.spawn_velocity(tuning).1 <= i64::MAX
    }

    /// The velocity of a missile fired now: of length `velocity` along the
    /// facing, mirrored across the first axis.
    pub open spec fn spawn_velocity(&self, tuning: &CannonTuning) -> (int, int) {
        (scaled(tuning.velocity, self.pointing().x), -scaled(tuning.velocity, self.pointing().y))
    }

    /// The place where a missile fired now appears: `barrel_length` away
    /// from the cannon along the mirrored facing.
    pub open spec fn spawn_position(&self, tuning: &CannonTuning) -> (int, int) {
        (
            self.position().x + scaled(tuning.barrel_length, self.pointing().x),
            self.position().y - scaled(tuning.barrel_length, self.pointing().y),
        )
    }

    /// The missile that the cannon fires now.
    pub open spec fn spawned(&self, tuning: &CannonTuning) -> Missile {
        Missile::launched(
            Vec2 {
                x: self.spawn_position(tuning).0 as i64,
                y: self.spawn_position(tuning).1 as i64,
            },
            Vec2 {
                x: self.spawn_velocity(tuning).0 as i64,
                y: self.spawn_velocity(tuning).1 as i64,
            },
        )
    }

    /// Whether the cannon fires in a tick with this input: firing is asked
    /// for and the refire block is inactive.
    pub open spec fn fires(&self, input: &InputSnapshot) -> bool {
        input.shoot && self.refire() is Inactive
    }

    /// A cannon at rest, free to fire, at `position` and pointing along
    /// `facing`.
    pub fn new(facing: Vec2, position: Vec2) -> (r: Self)
        ensures
            r.pointing() == facing,
            r.position() == position,
            r.rotation() == 0,
            r.refire() == Message::<()>::Inactive,
    {
        Cannon { facing, position, rot_vel: 0, refire_block: Message::Inactive }
    }

    /// The cannon with exactly these parts: what was saved of a cannon
    /// becomes that cannon again.
    pub fn from_parts(facing: Vec2, position: Vec2, rot_vel: i64, refire_block: Message<()>) -> (r:
        Self)
        ensures
            r.pointing() == facing,
            r.position() == position,
            r.rotation() == rot_vel,
            r.refire() == refire_block,
    {
        Cannon { facing, position, rot_vel, refire_block }
    }

    /// The direction in which the cannon points.
    pub fn facing(&self) -> (r: Vec2)
        ensures
            r == self.pointing(),
    {
        self.facing
    }

    /// Points the cannon along `facing`. Nothing else changes.
    pub fn set_facing(&mut self, facing: Vec2)
        ensures
            final(self).pointing() == facing,
            final(self).position() == old(self).position(),
            final(self).rotation() == old(self).rotation(),
            final(self).refire() == old(self).refire(),
    {
        self.facing = facing;
    }

    /// The angular velocity.
    pub fn rot_vel(&self) -> (r: i64)
        ensures
            r == self.rotation(),
    {
        self.rot_vel
    }

    /// The refire block, which keeps the cannon from firing while it is active.
    pub fn refire_block(&self) -> (r: &Message<()>)
        ensures
            *r == self.refire(),
    {
        &self.refire_block
    }

    /// Whether a missile fired now has coordinates and a velocity in range.
    pub fn can_spawn(&self, tuning: &CannonTuning) -> (r: bool)
        ensures
            r == self.spawn_fits(tuning),
    {
        let low: i128 = i64::MIN as i128;
        let high: i128 = i64::MAX as i128;
        let vx: i128 = scale(tuning.velocity, self.facing.x);
        let vy: i128 = -scale(tuning.velocity, self.facing.y);
        let px: i128 = self.position.x as i128 + scale(tuning.barrel_length, self.facing.x);
        let py: i128 = self.position.y as i128 - scale(tuning.barrel_length, self.facing.y);
        low <= px && px <= high && low <= py && py <= high && low <= vx && vx <= high && low <= vy
            && vy <= high
    }

    /// The missile that the cannon fires now: it appears at the muzzle and
    /// flies the way the cannon points.
    pub fn spawn(&self, tuning: &CannonTuning) -> (r: Missile)
        requires
            self.spawn_fits(tuning),
        ensures
            r == self.spawned(tuning),
    {
        let vx: i128 = scale(tuning.velocity, self.facing.x);
        let vy: i128 = -scale(tuning.velocity, self.facing.y);
        let px: i128 = self.position.x as i128 + scale(tuning.barrel_length, self.facing.x);
        let py: i128 = self.position.y as i128 - scale(tuning.barrel_length, self.facing.y);
        Missile::new(Vec2 { x: px as i64, y: py as i64 }, Vec2 { x: vx as i64, y: vy as i64 })
    }

    /// The first step of a tick of length `dt`: the angular velocity answers
    /// to the held direction.
    ///
    /// Returns the angle by which the cannon turns during the tick, the new
    /// angular velocity times `dt`. The facing itself is left as it is: the
    /// caller turns it by that angle with [`Self::set_facing`].
    pub fn steer(&mut self, held: Option<RotateDir>, rates: &RotationRates, dt: u32) -> (angle:
        i128)
        ensures
            final(self).rotation() == rates.next(old(self).rotation() as int, held, dt),
            -rates.max_rot_per_sec <= final(self).rotation() <= rates.max_rot_per_sec,
            angle == final(self).rotation() * dt,
            final(self).pointing() == old(self).pointing(),
            final(self).position() == old(self).position(),
            final(self).refire() == old(self).refire(),
    {
        self.rot_vel = rates.step(self.rot_vel, held, dt);
        proof {
            lemma_reach_bounds(dt, self.rot_vel);
            assert(self.rot_vel * dt == dt * self.rot_vel) by (nonlinear_arith);
        }
        self.rot_vel as i128 * dt as i128
    }

    /// The second step of a tick of length `dt`: the cannon fires, if firing
    /// is asked for and the refire block is inactive, and the refire block
    /// ticks.
    ///
    /// A missile that is fired is handed to `missiles`, which may refuse it
    /// for want of room; the refire block becomes active for `refire_delay`
    /// either way, before it ticks. Returns what the tracker said of the
    /// missile, if one was fired.
    pub fn fire<const MAX: u32>(
        &mut self,
        shoot: bool,
        missiles: &mut HashMapTracker<Missile, MAX>,
        tuning: &CannonTuning,
        dt: u32,
    ) -> (r: Option<Result<u32, TrackerError>>)
        requires
            old(missiles).wf(),
            shoot && old(self).refire() is Inactive ==> old(self).spawn_fits(tuning),
        ensures
            final(missiles).wf(),
            final(self).pointing() == old(self).pointing(),
            final(self).position() == old(self).position(),
            final(self).rotation() == old(self).rotation(),
            final(self).refire() == (if shoot && old(self).refire() is Inactive {
                Message::ActiveTicking((), tuning.refire_delay)
            } else {
                old(self).refire()
            }).ticked(dt as u64),
            r == (if shoot && old(self).refire() is Inactive {
                Some(old(missiles).model().insert_result(MAX as nat))
            } else {
                None
            }),
            final(missiles).model() == (if shoot && old(self).refire() is Inactive {
                old(missiles).model().after_insert(MAX as nat)
            } else {
                old(missiles).model()
            }),
            final(missiles)@ == (match r {
                Some(Ok(id)) => old(missiles)@.insert(
                    id,
                    old(self).spawned(tuning).with_index_spec(id),
                ),
                _ => old(missiles)@,
            }),
    {
        let mut fired: Option<Result<u32, TrackerError>> = None;
        if shoot {
            if self.refire_block.is_active().is_none() {
                let missile = self.spawn(tuning);
                fired = Some(missiles.insert(missile));
                self.refire_block.set_active_ticking((), tuning.refire_delay);
            }
        }
        self.refire_block.tick(dt as u64);
        fired
    }

    /// One fixed tick of length `dt` for a cannon whose facing the caller
    /// does not turn between the two steps: [`Self::steer`], then
    /// [`Self::fire`].
    ///
    /// Returns what the tracker said of the missile, if one was fired.
    pub fn fixed_update<const MAX: u32>(
        &mut self,
        input: &InputSnapshot,
        missiles: &mut HashMapTracker<Missile, MAX>,
        tuning: &CannonTuning,
        dt: u32,
    ) -> (r: Option<Result<u32, TrackerError>>)
        requires
            old(missiles).wf(),
            old(self).fires(input) ==> old(self).spawn_fits(tuning),
        ensures
            final(missiles).wf(),
            final(self).pointing() == old(self).pointing(),
            final(self).position() == old(self).position(),
            final(self).rotation() == tuning.rates.next(
                old(self).rotation() as int,
                input.cannon_rotate,
                dt,
            ),
            -tuning.rates.max_rot_per_sec <= final(self).rotation()
                <= tuning.rates.max_rot_per_sec,
            final(self).refire() == (if old(self).fires(input) {
                Message::ActiveTicking((), tuning.refire_delay)
            } else {
                old(self).refire()
            }).ticked(dt as u64),
            r == (if old(self).fires(input) {
                Some(old(missiles).model().insert_result(MAX as nat))
            } else {
                None
            }),
            final(missiles).model() == (if old(self).fires(input) {
                old(missiles).model().after_insert(MAX as nat)
            } else {
                old(missiles).model()
            }),
            final(missiles)@ == (match r {
                Some(Ok(id)) => old(missiles)@.insert(
                    id,
                    old(self).spawned(tuning).with_index_spec(id),
                ),
                _ => old(missiles)@,
            }),
    {
        let _ = self.steer(input.cannon_rotate, &tuning.rates, dt);
        self.fire(input.shoot, missiles, tuning, dt)
    }
}

/// A multiple of a coordinate has fewer than 96 bits.
proof fn lemma_reach_bounds(factor: u32, coordinate: i64)
    ensures
        -0x8000_0000_0000_0000_0000_0000 <= factor * coordinate <= 0x8000_0000_0000_0000_0000_0000,
{
    assert(-0x8000_0000_0000_0000_0000_0000 <= factor * coordinate
        <= 0x8000_0000_0000_0000_0000_0000) by (nonlinear_arith)
        requires
            -0x8000_0000_0000_0000 <= coordinate < 0x8000_0000_0000_0000,
            0 <= factor < 0x1_0000_0000,
    ;
}

} // verus!
