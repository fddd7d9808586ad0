//! The things that move: ship, bullets and asteroids.

use crate::fixed::Fixed;
use crate::rules::{BULLET_DELAY, BULLET_VEL, PLAYER_ACCEL, PLAYER_ROTATE_VEL};
use crate::vec2::Vec2;
use vstd::prelude::*;

verus! {

/// The five controls, as sampled for one frame.
#[derive(Clone, Copy, Debug, PartialEq, Eq, Structural)]
pub struct Buttons {
    pub forward: bool,
    pub backward: bool,
    pub left: bool,
    pub right: bool,
    pub fire: bool,
}

/// A drifting rock. `model_index` selects its outline in the shape library.
#[derive(Clone, Copy, Debug, PartialEq, Eq, Structural)]
pub struct Asteroid {
    pub pos: Vec2,
    pub vel: Vec2,
    pub radius: Fixed,
    pub model_index: usize,
}

/// A shot in flight. `dir` is the heading it was fired with.
#[derive(Clone, Copy, Debug, PartialEq, Eq, Structural)]
pub struct Bullet {
    pub pos: Vec2,
    pub vel: Vec2,
    pub dir: Fixed,
}

/// The ship. `dir` is its heading in radians, `last_shoot` the time of its
/// last shot in milliseconds on the caller's monotonic clock.
#[derive(Clone, Copy, Debug, PartialEq, Eq, Structural)]
pub struct Player {
    pub pos: Vec2,
    pub vel: Vec2,
    pub dir: Fixed,
    pub last_shoot: u64,
}

/// One coordinate brought back into the world: at or beyond `bound` it
/// re-enters at zero, below zero it re-enters at `bound`.
pub open spec fn spec_wrap_axis(value: Fixed, bound: Fixed) -> Fixed {
    if value.raw >= bound.raw {
        Fixed::zero()
    } else if value.raw < 0 {
        bound
    } else {
        value
    }
}

/// One coordinate brought back into the world: at or beyond `bound` it
/// re-enters at zero, below zero it re-enters at `bound`.
#[verifier::when_used_as_spec(spec_wrap_axis)]
pub fn wrap_axis(value: Fixed, bound: Fixed) -> (r: Fixed)
    ensures
        r == spec_wrap_axis(value, bound),
        bound.raw >= 0 ==> 0 <= r.raw <= bound.raw,
        bound.raw > 0 && value.raw >= 0 ==> r.raw < bound.raw,
{
    if value.raw >= bound.raw {
        Fixed::zero()
    } else if value.raw < 0 {
        bound
    } else {
        value
    }
}

/// Whether both coordinates of `pos` lie between zero and the world's
/// extent, both ends included.
pub open spec fn inside(pos: Vec2, size: Vec2) -> bool {
    &&& 0 <= pos.x.raw <= size.x.raw
    &&& 0 <= pos.y.raw <= size.y.raw
}

/// The position reached from `pos` at velocity `vel` after `dt` seconds,
/// each axis wrapped independently.
pub open spec fn spec_moved(pos: Vec2, vel: Vec2, dt: Fixed, size: Vec2) -> Vec2 {
    let free = pos.plus(vel.scaled(dt));
    Vec2 { x: wrap_axis(free.x, size.x), y: wrap_axis(free.y, size.y) }
}

/// The position reached from `pos` at velocity `vel` after `dt` seconds,
/// each axis wrapped independently.
#[verifier::when_used_as_spec(spec_moved)]
pub fn moved(pos: Vec2, vel: Vec2, dt: Fixed, size: Vec2) -> (r: Vec2)
    ensures
        r == spec_moved(pos, vel, dt, size),
        size.x.raw >= 0 && size.y.raw >= 0 ==> inside(r, size),
{
    let free = pos.plus(vel.scaled(dt));
    Vec2 { x: wrap_axis(free.x, size.x), y: wrap_axis(free.y, size.y) }
}

/// After moving, every coordinate lies in the world, whatever the position
/// and the velocity were; it lies strictly below the extent unless the free
/// motion had taken it below zero.
pub proof fn moved_stays_inside(pos: Vec2, vel: Vec2, dt: Fixed, size: Vec2)
    requires
        size.x.raw > 0,
        size.y.raw > 0,
    ensures
        inside(moved(pos, vel, dt, size), size),
        pos.plus(vel.scaled(dt)).x.raw >= 0 ==> moved(pos, vel, dt, size).x.raw < size.x.raw,
        pos.plus(vel.scaled(dt)).y.raw >= 0 ==> moved(pos, vel, dt, size).y.raw < size.y.raw,
        pos.plus(vel.scaled(dt)).x.raw >= size.x.raw ==> moved(pos, vel, dt, size).x.raw == 0,
        pos.plus(vel.scaled(dt)).x.raw < 0 ==> moved(pos, vel, dt, size).x == size.x,
        pos.plus(vel.scaled(dt)).y.raw >= size.y.raw ==> moved(pos, vel, dt, size).y.raw == 0,
        pos.plus(vel.scaled(dt)).y.raw < 0 ==> moved(pos, vel, dt, size).y == size.y,
{
}

impl Asteroid {
    /// The asteroid one time step later.
    pub open spec fn spec_advanced(self, dt: Fixed, size: Vec2) -> Asteroid {
        Asteroid { pos: moved(self.pos, self.vel, dt, size), ..self }
    }

    /// The asteroid one time step later.
    #[verifier::when_used_as_spec(spec_advanced)]
    pub fn advanced(self, dt: Fixed, size: Vec2) -> (r: Asteroid)
        ensures
            r == self.spec_advanced(dt, size),
            size.x.raw >= 0 && size.y.raw >= 0 ==> inside(r.pos, size),
    {
        Asteroid { pos: moved(self.pos, self.vel, dt, size), ..self }
    }
}

impl Bullet {
    /// The bullet one time step later.
    pub open spec fn spec_advanced(self, dt: Fixed, size: Vec2) -> Bullet {
        Bullet { pos: moved(self.pos, self.vel, dt, size), ..self }
    }

    /// The bullet one time step later.
    #[verifier::when_used_as_spec(spec_advanced)]
    pub fn advanced(self, dt: Fixed, size: Vec2) -> (r: Bullet)
        ensures
            r == self.spec_advanced(dt, size),
            size.x.raw >= 0 && size.y.raw >= 0 ==> inside(r.pos, size),
    {
        Bullet { pos: moved(self.pos, self.vel, dt, size), ..self }
    }
}

/// Whether a shot may be fired at time `now` when the last one was fired at
/// `last`: the clock has not run backwards and the delay has passed.
pub open spec fn spec_cooled(last: u64, now: u64) -> bool {
    now >= last && now - last >= BULLET_DELAY
}

/// Whether a shot may be fired at time `now` when the last one was fired at
/// `last`.
#[verifier::when_used_as_spec(spec_cooled)]
pub fn cooled(last: u64, now: u64) -> (r: bool)
    ensures
        r == spec_cooled(last, now),
{
    now >= last && now - last >= BULLET_DELAY
}

impl Player {
    /// The ship at rest at `pos`, heading zero, having last fired at `now`.
    pub open spec fn spec_at_rest(pos: Vec2, now: u64) -> Player {
        Player { pos, vel: Vec2::zero(), dir: Fixed::zero(), last_shoot: now }
    }

    /// The ship at rest at `pos`, heading zero, having last fired at `now`.
    #[verifier::when_used_as_spec(spec_at_rest)]
    pub fn at_rest(pos: Vec2, now: u64) -> (r: Player)
        ensures
            r == Player::spec_at_rest(pos, now),
    {
        Player { pos, vel: Vec2::zero(), dir: Fixed::zero(), last_shoot: now }
    }

    /// The heading after `dt` seconds of the turn controls: `left` adds the
    /// turning rate times `dt`, `right` subtracts it.
    pub open spec fn spec_turned(self, buttons: Buttons, dt: Fixed) -> Fixed {
        let step = Fixed { raw: PLAYER_ROTATE_VEL }.times(dt);
        let after_left = if buttons.left {
            self.dir.plus(step)
        } else {
            self.dir
        };
        if buttons.right {
            after_left.minus(step)
        } else {
            after_left
        }
    }

    /// The heading after `dt` seconds of the turn controls.
    #[verifier::when_used_as_spec(spec_turned)]
    pub fn turned(self, buttons: Buttons, dt: Fixed) -> (r: Fixed)
        ensures
            r == self.spec_turned(buttons, dt),
    {
        let step = Fixed { raw: PLAYER_ROTATE_VEL }.times(dt);
        let after_left = if buttons.left {
            self.dir.plus(step)
        } else {
            self.dir
        };
        if buttons.right {
            after_left.minus(step)
        } else {
            after_left
        }
    }

    /// The velocity after `dt` seconds of the thrust controls at heading
    /// `dir`: `forward` subtracts the vector `(0, accel * dt)` turned by the
    /// heading, `backward` subtracts `(0, -accel * dt)` turned by it.
    /// Nothing slows the ship down.
    pub open spec fn spec_thrusted(self, buttons: Buttons, dt: Fixed, dir: Fixed) -> Vec2 {
        let ahead = Vec2 { x: Fixed::zero(), y: Fixed::from_int(PLAYER_ACCEL).times(dt) };
        let astern = Vec2 {
            x: Fixed::zero(),
            y: Fixed::from_int(PLAYER_ACCEL).negated().times(dt),
        };
        let after_forward = if buttons.forward {
            self.vel.minus(ahead.rotated(dir))
        } else {
            self.vel
        };
        if buttons.backward {
            after_forward.minus(astern.rotated(dir))
        } else {
            after_forward
        }
    }

    /// The velocity after `dt` seconds of the thrust controls at heading
    /// `dir`.
    #[verifier::when_used_as_spec(spec_thrusted)]
    pub fn thrusted(self, buttons: Buttons, dt: Fixed, dir: Fixed) -> (r: Vec2)
        ensures
            r == self.spec_thrusted(buttons, dt, dir),
    {
        let ahead = Vec2 { x: Fixed::zero(), y: Fixed::from_int(PLAYER_ACCEL).times(dt) };
        let astern = Vec2 {
            x: Fixed::zero(),
            y: Fixed::from_int(PLAYER_ACCEL).negated().times(dt),
        };
        let after_forward = if buttons.forward {
            self.vel.minus(ahead.rotated(dir))
        } else {
            self.vel
        };
        if buttons.backward {
            after_forward.minus(astern.rotated(dir))
        } else {
            after_forward
        }
    }

    /// The ship after one time step: moved and wrapped at its old velocity,
    /// then turned, then accelerated along the new heading.
    pub open spec fn spec_steered(self, buttons: Buttons, dt: Fixed, size: Vec2) -> Player {
        let dir = self.turned(buttons, dt);
        Player {
            pos: moved(self.pos, self.vel, dt, size),
            vel: self.thrusted(buttons, dt, dir),
            dir,
            last_shoot: self.last_shoot,
        }
    }

    /// The ship after one time step: moved and wrapped at its old velocity,
    /// then turned, then accelerated along the new heading.
    #[verifier::when_used_as_spec(spec_steered)]
    pub fn steered(self, buttons: Buttons, dt: Fixed, size: Vec2) -> (r: Player)
        ensures
            r == self.spec_steered(buttons, dt, size),
    {
        let dir = self.turned(buttons, dt);
        Player {
            pos: moved(self.pos, self.vel, dt, size),
            vel: self.thrusted(buttons, dt, dir),
            dir,
            last_shoot: self.last_shoot,
        }
    }

    /// Whether the ship fires at time `now`: the control is held and the
    /// delay since the last shot has passed.
    pub open spec fn spec_fires(self, buttons: Buttons, now: u64) -> bool {
        buttons.fire && cooled(self.last_shoot, now)
    }

    /// Whether the ship fires at time `now`.
    #[verifier::when_used_as_spec(spec_fires)]
    pub fn fires(self, buttons: Buttons, now: u64) -> (r: bool)
        ensures
            r == self.spec_fires(buttons, now),
    {
        buttons.fire && cooled(self.last_shoot, now)
    }

    /// The bullet that the ship fires: at the ship's position, with the
    /// ship's velocity minus the muzzle velocity `(0, BULLET_VEL)` turned by
    /// the heading.
    pub open spec fn spec_shot(self) -> Bullet {
        let muzzle = Vec2 { x: Fixed::zero(), y: Fixed::from_int(BULLET_VEL) };
        Bullet { pos: self.pos, vel: self.vel.minus(muzzle.rotated(self.dir)), dir: self.dir }
    }

    /// The bullet that the ship fires.
    #[verifier::when_used_as_spec(spec_shot)]
    pub fn shot(self) -> (r: Bullet)
        ensures
            r == self.spec_shot(),
    {
        let muzzle = Vec2 { x: Fixed::zero(), y: Fixed::from_int(BULLET_VEL) };
        Bullet { pos: self.pos, vel: self.vel.minus(muzzle.rotated(self.dir)), dir: self.dir }
    }
}

/// How many shots a ship fires that last fired at `last` and holds the fire
/// control at each of the `times`, in order.
pub open spec fn shots_fired(last: u64, times: Seq<u64>) -> nat
    decreases times.len(),
{
    if times.len() == 0 {
        0
    } else if cooled(last, times[0]) {
        1 + shots_fired(times[0], times.skip(1))
    } else {
        shots_fired(last, times.skip(1))
    }
}

/// No shot is fired at times that all lie less than the delay after the
/// last shot.
pub proof fn no_shot_before_delay(last: u64, times: Seq<u64>)
    requires
        forall|i: int| 0 <= i < times.len() ==> times[i] < last + BULLET_DELAY,
    ensures
        shots_fired(last, times) == 0,
    decreases times.len(),
{
    if times.len() > 0 {
        assert(times[0] < last + BULLET_DELAY);
        assert forall|i: int| 0 <= i < times.skip(1).len() implies times.skip(1)[i] < last
            + BULLET_DELAY by {
            assert(times.skip(1)[i] == times[i + 1]);
        }
        no_shot_before_delay(last, times.skip(1));
    }
}

/// Firing is rate-limited: holding fire at any number of non-decreasing
/// times that span less than the delay produces at most one bullet.
pub proof fn fire_is_rate_limited(last: u64, times: Seq<u64>)
    requires
        forall|i: int, j: int| 0 <= i <= j < times.len() ==> times[i] <= times[j],
        times.len() > 0 ==> times[times.len() - 1] - times[0] < BULLET_DELAY,
    ensures
        shots_fired(last, times) <= 1,
    decreases times.len(),
{
    if times.len() > 0 {
        let rest = times.skip(1);
        assert forall|i: int, j: int| 0 <= i <= j < rest.len() implies rest[i] <= rest[j] by {
            assert(rest[i] == times[i + 1]);
            assert(rest[j] == times[j + 1]);
        }
        if rest.len() > 0 {
            assert(rest[rest.len() - 1] == times[times.len() - 1]);
            assert(rest[0] == times[1]);
            assert(times[0] <= times[1]);
        }
        if cooled(last, times[0]) {
            assert forall|i: int| 0 <= i < rest.len() implies rest[i] < times[0]
                + BULLET_DELAY by {
                assert(rest[i] == times[i + 1]);
                assert(times[i + 1] <= times[times.len() - 1]);
            }
            no_shot_before_delay(times[0], rest);
        } else {
            fire_is_rate_limited(last, rest);
        }
    }
}

} // verus!
