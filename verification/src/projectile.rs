//! The weapon and its projectiles.
//!
//! On a rising edge of the fire button the shell unprojects the cursor into
//! a world-space ray and hands this module the aim point on that ray (or
//! nothing, when the cursor or the ray is unavailable); the module decides
//! whether a projectile spawns and with what velocity. Every frame it also
//! advances each live projectile along its fixed velocity.

use vstd::prelude::*;

use vstd::math::abs;
use vstd::pervasive::VecAdditionalExecFns;

use crate::fixed::{
    div_trunc, lemma_div_trunc_bound, lemma_div_trunc_exact, lemma_isqrt_bounds, mul_div,
    spec_cross_x, spec_cross_y, spec_cross_z, spec_in_coord_range, spec_isqrt, spec_norm_sq,
    Vec3Fx, COORD_LIMIT, SCALE, SPEED_LIMIT,
};

verus! {

/// Speed given to every projectile, in milli-units per second (40 units
/// per second).
pub const PROJECTILE_SPEED: i64 = 40_000;

/// How far along the aim ray the target point is taken, in milli-units
/// (100 units from the camera).
pub const AIM_DISTANCE: i64 = 100_000;

/// Longest frame delta the integrator accepts, in milliseconds.
pub const FRAME_DELTA_LIMIT: u64 = 1_000_000;

/// A projectile in flight. Its velocity (milli-units per second) is fixed
/// when it spawns and never changes afterward.
#[derive(Clone, Copy, Debug, PartialEq, Eq, Structural)]
pub struct Projectile {
    pub velocity: Vec3Fx,
}

impl Default for Projectile {
    /// A projectile at rest: zero velocity.
    fn default() -> (r: Self)
        ensures
            r == (Projectile { velocity: Vec3Fx { x: 0, y: 0, z: 0 } }),
    {
        Projectile { velocity: Vec3Fx { x: 0, y: 0, z: 0 } }
    }
}

/// One component of a position advanced by `velocity * dt`, with the
/// velocity in milli-units per second and the frame delta in milliseconds.
pub open spec fn spec_advanced(p: int, v: int, dt_ms: int) -> int {
    p + mul_div(v, dt_ms, SCALE as int)
}

/// Advance a position one frame along a velocity: straight-line travel,
/// `position + velocity * dt`.
pub fn advance_position(position: Vec3Fx, velocity: Vec3Fx, dt_ms: u64) -> (r: Vec3Fx)
    requires
        spec_in_coord_range(position),
        -SPEED_LIMIT <= velocity.x <= SPEED_LIMIT,
        -SPEED_LIMIT <= velocity.y <= SPEED_LIMIT,
        -SPEED_LIMIT <= velocity.z <= SPEED_LIMIT,
        dt_ms <= FRAME_DELTA_LIMIT,
    ensures
        r.x == spec_advanced(position.x as int, velocity.x as int, dt_ms as int),
        r.y == spec_advanced(position.y as int, velocity.y as int, dt_ms as int),
        r.z == spec_advanced(position.z as int, velocity.z as int, dt_ms as int),
{
    proof {
        lemma_travel_small(velocity.x as int, dt_ms as int);
        lemma_travel_small(velocity.y as int, dt_ms as int);
        lemma_travel_small(velocity.z as int, dt_ms as int);
    }
    let travel = velocity.scaled_ratio(dt_ms as i64, SCALE);
    position.plus(travel)
}

/// One frame's travel fits the machine integers: a bounded velocity over a
/// bounded frame delta moves the projectile at most `SPEED_LIMIT` thousand
/// milli-units.
proof fn lemma_travel_small(v: int, dt_ms: int)
    requires
        -SPEED_LIMIT <= v <= SPEED_LIMIT,
        0 <= dt_ms <= FRAME_DELTA_LIMIT,
    ensures
        -0x7fff_ffff_ffff_ffff <= v * dt_ms <= 0x7fff_ffff_ffff_ffff,
        -1_000_000_000_000 <= mul_div(v, dt_ms, SCALE as int) <= 1_000_000_000_000,
{
    assert(-1_000_000_000_000 <= v * dt_ms <= 1_000_000_000_000) by (nonlinear_arith)
        requires
            -1_000_000 <= v <= 1_000_000,
            0 <= dt_ms <= 1_000_000,
    ;
    lemma_div_trunc_bound(v * dt_ms, SCALE as int);
}

/// Standing still: advancing any position by a zero frame delta returns it
/// unchanged, whatever the velocity.
pub proof fn lemma_advance_zero_delta(p: int, v: int)
    ensures
        spec_advanced(p, v, 0) == p,
{
    assert(v * 0 == 0) by (nonlinear_arith);
}

/// A projectile at rest stays put: advancing along a zero velocity returns
/// the position unchanged, whatever the frame delta.
pub proof fn lemma_advance_zero_velocity(p: int, dt_ms: int)
    ensures
        spec_advanced(p, 0, dt_ms) == p,
{
    assert(0 * dt_ms == 0) by (nonlinear_arith);
}

/// One component of the spawned velocity: the aim offset component scaled
/// by `speed / norm`, rounded toward zero. With `norm` the length of the
/// offset, this is the offset normalized and scaled to `speed`.
pub open spec fn spec_aimed_component(d: int, speed: int, norm: int) -> int {
    mul_div(d, speed, norm)
}

/// The velocity a projectile spawns with, aimed from `origin` (the camera
/// position) at `target` (the point [`AIM_DISTANCE`] along the cursor ray):
/// the direction `target - origin` normalized and scaled to `speed`.
/// Nothing spawns when the target coincides with the origin, the one aim
/// the ray cannot express.
pub fn spawn_velocity(target: Vec3Fx, origin: Vec3Fx, speed: i64) -> (r: Option<Vec3Fx>)
    requires
        spec_in_coord_range(target),
        spec_in_coord_range(origin),
        -COORD_LIMIT <= target.x - origin.x <= COORD_LIMIT,
        -COORD_LIMIT <= target.y - origin.y <= COORD_LIMIT,
        -COORD_LIMIT <= target.z - origin.z <= COORD_LIMIT,
        0 < speed <= SPEED_LIMIT,
    ensures
        (r is Some) <==> target != origin,
        (r matches Some(v) ==> {
            let d = spec_aim_offset(target, origin);
            let n: int = spec_isqrt(spec_norm_sq(d) as nat) as int;
            &&& v.x == spec_aimed_component(d.x as int, speed as int, n)
            &&& v.y == spec_aimed_component(d.y as int, speed as int, n)
            &&& v.z == spec_aimed_component(d.z as int, speed as int, n)
        }),
{
    let d = target.minus(origin);
    let m: u64 = crate::fixed::norm_sq_u64(d);
    proof {
        lemma_norm_sq_zero_iff_zero(d);
        if target != origin {
            assert(d != (Vec3Fx { x: 0, y: 0, z: 0 }));
        }
        if d != (Vec3Fx { x: 0, y: 0, z: 0 }) {
            assert(target != origin);
        }
    }
    if m == 0 {
        None
    } else {
        let n: u64 = crate::fixed::isqrt_u64(m);
        proof {
            lemma_isqrt_bounds(m as nat);
            assert(n >= 1) by (nonlinear_arith)
                requires
                    m >= 1,
                    m < (n + 1) * (n + 1),
                    n >= 0,
            ;
            assert(n <= 0x7fff_ffff_ffff_ffff) by (nonlinear_arith)
                requires
                    n * n <= m <= 0xffff_ffff_ffff_ffff,
                    n >= 0,
            ;
            lemma_aim_product_small(d.x as int, speed as int);
            lemma_aim_product_small(d.y as int, speed as int);
            lemma_aim_product_small(d.z as int, speed as int);
        }
        Some(d.scaled_ratio(speed, n as i64))
    }
}

/// The aim offset: where the target lies relative to the camera.
pub open spec fn spec_aim_offset(target: Vec3Fx, origin: Vec3Fx) -> Vec3Fx {
    Vec3Fx {
        x: (target.x - origin.x) as i64,
        y: (target.y - origin.y) as i64,
        z: (target.z - origin.z) as i64,
    }
}

/// An aim component times the speed fits the machine integers.
proof fn lemma_aim_product_small(d: int, speed: int)
    requires
        -COORD_LIMIT <= d <= COORD_LIMIT,
        0 < speed <= SPEED_LIMIT,
    ensures
        -0x7fff_ffff_ffff_ffff <= d * speed <= 0x7fff_ffff_ffff_ffff,
{
    assert(-1_000_000_000_000_000 <= d * speed <= 1_000_000_000_000_000) by (nonlinear_arith)
        requires
            -1_000_000_000 <= d <= 1_000_000_000,
            0 < speed <= 1_000_000,
    ;
}

/// A vector has squared length zero exactly when it is the zero vector.
pub proof fn lemma_norm_sq_zero_iff_zero(v: Vec3Fx)
    ensures
        spec_norm_sq(v) == 0 <==> v == (Vec3Fx { x: 0, y: 0, z: 0 }),
        spec_norm_sq(v) >= 0,
{
    assert(v.x * v.x + v.y * v.y + v.z * v.z >= 0) by (nonlinear_arith);
    if spec_norm_sq(v) == 0 {
        assert(v.x == 0 && v.y == 0 && v.z == 0) by (nonlinear_arith)
            requires
                v.x * v.x + v.y * v.y + v.z * v.z == 0,
        ;
    }
    if v.x == 0 && v.y == 0 && v.z == 0 {
        assert(v.x * v.x + v.y * v.y + v.z * v.z == 0) by (nonlinear_arith)
            requires
                v.x == 0,
                v.y == 0,
                v.z == 0,
        ;
    }
}

/// When the aim offset has an exact integer length `n` and `n` divides each
/// scaled component, the spawned velocity is exact: its length is exactly
/// `speed` and it is exactly parallel to the offset (all three cross-product
/// components vanish).
pub proof fn lemma_spawn_velocity_exact(d: Vec3Fx, v: Vec3Fx, speed: int, n: int)
    requires
        0 < n,
        spec_norm_sq(d) == n * n,
        (d.x * speed) % n == 0,
        (d.y * speed) % n == 0,
        (d.z * speed) % n == 0,
        v.x == spec_aimed_component(d.x as int, speed as int, n),
        v.y == spec_aimed_component(d.y as int, speed as int, n),
        v.z == spec_aimed_component(d.z as int, speed as int, n),
    ensures
        spec_norm_sq(v) == speed * speed,
        spec_cross_x(v, d) == 0,
        spec_cross_y(v, d) == 0,
        spec_cross_z(v, d) == 0,
{
    lemma_div_trunc_exact(d.x * speed, n);
    lemma_div_trunc_exact(d.y * speed, n);
    lemma_div_trunc_exact(d.z * speed, n);
    assert(v.x * n == d.x * speed);
    assert(v.y * n == d.y * speed);
    assert(v.z * n == d.z * speed);
    let nn: int = n * n;
    let ss: int = speed * speed;
    let sum_v: int = v.x * v.x + v.y * v.y + v.z * v.z;
    let sum_d: int = d.x * d.x + d.y * d.y + d.z * d.z;
    assert(v.x * v.x * nn == d.x * d.x * ss) by (nonlinear_arith)
        requires
            nn == n * n,
            ss == speed * speed,
            v.x * n == d.x * speed,
    ;
    assert(v.y * v.y * nn == d.y * d.y * ss) by (nonlinear_arith)
        requires
            nn == n * n,
            ss == speed * speed,
            v.y * n == d.y * speed,
    ;
    assert(v.z * v.z * nn == d.z * d.z * ss) by (nonlinear_arith)
        requires
            nn == n * n,
            ss == speed * speed,
            v.z * n == d.z * speed,
    ;
    assert(sum_v * nn == sum_d * ss) by (nonlinear_arith)
        requires
            sum_v == v.x * v.x + v.y * v.y + v.z * v.z,
            sum_d == d.x * d.x + d.y * d.y + d.z * d.z,
            v.x * v.x * nn == d.x * d.x * ss,
            v.y * v.y * nn == d.y * d.y * ss,
            v.z * v.z * nn == d.z * d.z * ss,
    ;
    assert(sum_d == nn);
    assert(sum_v == ss) by (nonlinear_arith)
        requires
            0 < n,
            nn == n * n,
            sum_v * nn == sum_d * ss,
            sum_d == nn,
    ;
    assert(spec_cross_x(v, d) == 0) by (nonlinear_arith)
        requires
            0 < n,
            spec_cross_x(v, d) == v.y * d.z - v.z * d.y,
            v.y * n == d.y * speed,
            v.z * n == d.z * speed,
    ;
    assert(spec_cross_y(v, d) == 0) by (nonlinear_arith)
        requires
            0 < n,
            spec_cross_y(v, d) == v.z * d.x - v.x * d.z,
            v.x * n == d.x * speed,
            v.z * n == d.z * speed,
    ;
    assert(spec_cross_z(v, d) == 0) by (nonlinear_arith)
        requires
            0 < n,
            spec_cross_z(v, d) == v.x * d.y - v.y * d.x,
            v.x * n == d.x * speed,
            v.y * n == d.y * speed,
    ;
}

/// What the fire action spawns: a projectile at the camera's position with
/// the velocity it will keep for its whole flight.
#[derive(Clone, Copy, Debug, PartialEq, Eq, Structural)]
pub struct SpawnedProjectile {
    pub origin: Vec3Fx,
    pub velocity: Vec3Fx,
}

/// What a successful fire action must have spawned given the aim target
/// `t`: a projectile at the camera whose velocity is the offset from the
/// camera to `t`, normalized and scaled to [`PROJECTILE_SPEED`].
pub open spec fn spec_fired(t: Vec3Fx, camera: Vec3Fx, r: Option<SpawnedProjectile>) -> bool {
    match r {
        None => false,
        Some(s) => {
            let d = spec_aim_offset(t, camera);
            let n: int = spec_isqrt(spec_norm_sq(d) as nat) as int;
            &&& s.origin == camera
            &&& s.velocity.x == spec_aimed_component(d.x as int, PROJECTILE_SPEED as int, n)
            &&& s.velocity.y == spec_aimed_component(d.y as int, PROJECTILE_SPEED as int, n)
            &&& s.velocity.z == spec_aimed_component(d.z as int, PROJECTILE_SPEED as int, n)
        },
    }
}

/// The weapon's decision for one frame.
///
/// `fire_edge` is whether the frame is a rising edge of the fire button;
/// `aim_target` is the point [`AIM_DISTANCE`] along the cursor's world-space
/// ray, or nothing when the cursor is outside the window or the camera
/// cannot produce a ray — in either of those cases, and when the button
/// yields no edge, the action is silently skipped. Otherwise a projectile
/// spawns at the camera, aimed at the target with speed
/// [`PROJECTILE_SPEED`], unless the target coincides with the camera (an
/// aim no ray can express).
pub fn fire_weapon(fire_edge: bool, aim_target: Option<Vec3Fx>, camera_position: Vec3Fx) -> (r:
    Option<SpawnedProjectile>)
    requires
        spec_in_coord_range(camera_position),
        (aim_target matches Some(t) ==> {
            &&& spec_in_coord_range(t)
            &&& -COORD_LIMIT <= t.x - camera_position.x <= COORD_LIMIT
            &&& -COORD_LIMIT <= t.y - camera_position.y <= COORD_LIMIT
            &&& -COORD_LIMIT <= t.z - camera_position.z <= COORD_LIMIT
        }),
    ensures
        !fire_edge ==> r is None,
        fire_edge && aim_target is None ==> r is None,
        (aim_target matches Some(t) ==> (fire_edge && t == camera_position ==> r is None)),
        (aim_target matches Some(t) ==> (fire_edge && t != camera_position ==> spec_fired(
            t,
            camera_position,
            r,
        ))),
{
    if !fire_edge {
        return None;
    }
    match aim_target {
        None => None,
        Some(target) => match spawn_velocity(target, camera_position, PROJECTILE_SPEED) {
            None => None,
            Some(velocity) => Some(
                SpawnedProjectile { origin: camera_position, velocity },
            ),
        },
    }
}

/// Advance every live projectile one frame: each position moves by its
/// projectile's velocity times the frame delta, and nothing is added or
/// removed.
pub fn update_projectiles(positions: &mut Vec<Vec3Fx>, projectiles: &Vec<Projectile>, dt_ms: u64)
    requires
        old(positions).len() == projectiles.len(),
        dt_ms <= FRAME_DELTA_LIMIT,
        forall|i: int|
            0 <= i < projectiles.len() ==> spec_in_coord_range(#[trigger] old(positions)@[i]),
        forall|i: int|
            0 <= i < projectiles.len() ==> {
                let v = (#[trigger] projectiles@[i]).velocity;
                &&& -SPEED_LIMIT <= v.x <= SPEED_LIMIT
                &&& -SPEED_LIMIT <= v.y <= SPEED_LIMIT
                &&& -SPEED_LIMIT <= v.z <= SPEED_LIMIT
            },
    ensures
        final(positions).len() == old(positions).len(),
        forall|i: int|
            0 <= i < projectiles.len() ==> {
                let p = old(positions)@[i];
                let v = projectiles@[i].velocity;
                &&& (#[trigger] final(positions)@[i]).x == spec_advanced(
                    p.x as int,
                    v.x as int,
                    dt_ms as int,
                )
                &&& final(positions)@[i].y == spec_advanced(p.y as int, v.y as int, dt_ms as int)
                &&& final(positions)@[i].z == spec_advanced(p.z as int, v.z as int, dt_ms as int)
            },
{
    let n: usize = positions.len();
    let mut i: usize = 0;
    while i < n
        invariant
            n == projectiles.len() == positions.len(),
            positions.len() == old(positions).len(),
            i <= n,
            dt_ms <= FRAME_DELTA_LIMIT,
            forall|j: int|
                i <= j < n ==> #[trigger] positions@[j] == old(positions)@[j],
            forall|j: int|
                0 <= j < n ==> spec_in_coord_range(#[trigger] old(positions)@[j]),
            forall|j: int|
                0 <= j < n ==> {
                    let v = (#[trigger] projectiles@[j]).velocity;
                    &&& -SPEED_LIMIT <= v.x <= SPEED_LIMIT
                    &&& -SPEED_LIMIT <= v.y <= SPEED_LIMIT
                    &&& -SPEED_LIMIT <= v.z <= SPEED_LIMIT
                },
            forall|j: int|
                0 <= j < i ==> {
                    let p = old(positions)@[j];
                    let v = projectiles@[j].velocity;
                    &&& (#[trigger] positions@[j]).x == spec_advanced(
                        p.x as int,
                        v.x as int,
                        dt_ms as int,
                    )
                    &&& positions@[j].y == spec_advanced(p.y as int, v.y as int, dt_ms as int)
                    &&& positions@[j].z == spec_advanced(p.z as int, v.z as int, dt_ms as int)
                },
        decreases n - i,
    {
        let moved = advance_position(positions[i], projectiles[i].velocity, dt_ms);
        positions.set(i, moved);
        i = i + 1;
    }
}

/// How far rounding can take each spawned component from the ideal
/// `d * speed / norm`: scaled back up by the norm, it falls short of
/// `d * speed` by less than the norm.
pub proof fn lemma_spawn_velocity_rounding(d: int, speed: int, n: int)
    requires
        0 < n,
    ensures
        d * speed - n < spec_aimed_component(d, speed, n) * n,
        spec_aimed_component(d, speed, n) * n < d * speed + n,
{
    crate::fixed::lemma_div_trunc_error(d * speed, n);
}

/// Two spawned components stay nearly proportional to their aim
/// components: the two-by-two cross term `u * q - w * p`, which exact
/// normalization would make zero, stays within `|p| + |q|` — one
/// rounding step per component.
pub proof fn lemma_aimed_pair_nearly_proportional(p: int, q: int, speed: int, n: int)
    requires
        0 < n,
    ensures
        -(abs(p) + abs(q)) <= spec_aimed_component(p, speed, n) * q - spec_aimed_component(
            q,
            speed,
            n,
        ) * p <= abs(p) + abs(q),
{
    let u: int = spec_aimed_component(p, speed, n);
    let w: int = spec_aimed_component(q, speed, n);
    lemma_spawn_velocity_rounding(p, speed, n);
    lemma_spawn_velocity_rounding(q, speed, n);
    let eu: int = u * n - p * speed;
    let ew: int = w * n - q * speed;
    assert(n * (u * q - w * p) == (u * n) * q - (w * n) * p) by (nonlinear_arith);
    assert((u * n) * q - (w * n) * p == eu * q - ew * p) by (nonlinear_arith)
        requires
            u * n == p * speed + eu,
            w * n == q * speed + ew,
    ;
    let bound: int = (abs(p) + abs(q)) as int;
    assert(-(n * bound) <= eu * q - ew * p <= n * bound) by (nonlinear_arith)
        requires
            0 < n,
            -n < eu < n,
            -n < ew < n,
            -abs(p) <= p <= abs(p),
            -abs(q) <= q <= abs(q),
            0 <= abs(p),
            0 <= abs(q),
            bound == abs(p) + abs(q),
    ;
    assert(-bound <= u * q - w * p <= bound) by (nonlinear_arith)
        requires
            0 < n,
            -(n * bound) <= n * (u * q - w * p) <= n * bound,
    ;
}

/// The spawned velocity is parallel to the aim offset up to rounding: each
/// cross-product component, zero under exact normalization, stays within
/// the sum of the two aim components it mixes.
pub proof fn lemma_spawn_velocity_nearly_parallel(d: Vec3Fx, v: Vec3Fx, speed: int, n: int)
    requires
        0 < n,
        v.x == spec_aimed_component(d.x as int, speed, n),
        v.y == spec_aimed_component(d.y as int, speed, n),
        v.z == spec_aimed_component(d.z as int, speed, n),
    ensures
        -(abs(d.y as int) + abs(d.z as int)) <= spec_cross_x(v, d) <= abs(d.y as int) + abs(
            d.z as int,
        ),
        -(abs(d.z as int) + abs(d.x as int)) <= spec_cross_y(v, d) <= abs(d.z as int) + abs(
            d.x as int,
        ),
        -(abs(d.x as int) + abs(d.y as int)) <= spec_cross_z(v, d) <= abs(d.x as int) + abs(
            d.y as int,
        ),
{
    lemma_aimed_pair_nearly_proportional(d.y as int, d.z as int, speed, n);
    assert(spec_cross_x(v, d) == v.y * d.z - v.z * d.y);
    lemma_aimed_pair_nearly_proportional(d.z as int, d.x as int, speed, n);
    assert(spec_cross_y(v, d) == v.z * d.x - v.x * d.z);
    lemma_aimed_pair_nearly_proportional(d.x as int, d.y as int, speed, n);
    assert(spec_cross_z(v, d) == v.x * d.y - v.y * d.x);
}

} // verus!
