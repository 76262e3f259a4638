//! The camera that eases after the ship: it rests while the ship is within
//! the dead zone and otherwise closes in at a speed that grows with the
//! distance.

use vstd::prelude::*;
use crate::units::{Vec2, trunc_div, magnitude, div_toward_zero, lemma_trunc_div_bound};

verus! {

/// Distance, in thousandths, up to which the camera does not move.
pub const DEAD_ZONE: i64 = 50_000;

/// Distance beyond the dead zone, in thousandths, at which the camera closes
/// the whole gap in one second.
pub const EASE_RANGE: i64 = 100_000;

/// Elapsed time is measured in millionths of a second.
pub const MICROS_PER_SECOND: i64 = 1_000_000;

/// Largest magnitude of a coordinate, in thousandths, that the follower
/// accepts.
pub const WORLD_LIMIT: i64 = 1_073_741_824;

/// Position of the camera on the plane. The follower is its only writer.
#[derive(Clone, Copy, Debug, PartialEq, Eq, Structural)]
pub struct CameraState {
    pub position: Vec2,
}

/// Both coordinates of `p` are within [`WORLD_LIMIT`] of zero.
pub open spec fn in_world(p: Vec2) -> bool {
    &&& -WORLD_LIMIT <= p.x <= WORLD_LIMIT
    &&& -WORLD_LIMIT <= p.y <= WORLD_LIMIT
}

/// Tells whether both coordinates of `p` are within [`WORLD_LIMIT`] of zero.
pub fn within_world(p: Vec2) -> (inside: bool)
    ensures
        inside == in_world(p),
{
    -WORLD_LIMIT <= p.x && p.x <= WORLD_LIMIT && -WORLD_LIMIT <= p.y && p.y <= WORLD_LIMIT
}

/// The squared distance between two points.
pub open spec fn distance_sq(from: Vec2, to: Vec2) -> int {
    (to.x - from.x) * (to.x - from.x) + (to.y - from.y) * (to.y - from.y)
}

/// `root` is the square root of `n`, rounded down.
pub open spec fn is_floor_sqrt(n: int, root: int) -> bool {
    0 <= root && root * root <= n < (root + 1) * (root + 1)
}

/// The square root of `n`, rounded down.
pub open spec fn floor_sqrt(n: int) -> int {
    choose|root: int| is_floor_sqrt(n, root)
}

/// A number has at most one rounded-down square root.
pub proof fn lemma_floor_sqrt_unique(n: int, a: int, b: int)
    by (nonlinear_arith)
    requires
        is_floor_sqrt(n, a),
        is_floor_sqrt(n, b),
    ensures
        a == b,
{
}

/// A root that fits is the rounded-down square root.
pub proof fn lemma_floor_sqrt_is(n: int, root: int)
    requires
        is_floor_sqrt(n, root),
    ensures
        floor_sqrt(n) == root,
{
    lemma_floor_sqrt_unique(n, root, floor_sqrt(n));
}

/// Computes the square root of `n`, rounded down.
pub fn isqrt(n: u64) -> (root: u64)
    ensures
        is_floor_sqrt(n as int, root as int),
        root == floor_sqrt(n as int),
        root < 4_294_967_296,
{
    let mut low: u64 = 0;
    let mut high: u64 = 4_294_967_296;
    assert(high * high > n) by (nonlinear_arith)
        requires
            high == 4_294_967_296,
            n <= u64::MAX,
    ;
    while high - low > 1
        invariant
            low < high <= 4_294_967_296,
            low * low <= n < high * high,
        decreases high - low,
    {
        let mid: u64 = low + (high - low) / 2;
        assert(mid * mid <= 18_446_744_073_709_551_616) by (nonlinear_arith)
            requires
                mid <= 4_294_967_296,
        ;
        let square: u128 = (mid as u128) * (mid as u128);
        if square <= n as u128 {
            low = mid;
        } else {
            high = mid;
        }
    }
    proof {
        lemma_floor_sqrt_is(n as int, low as int);
    }
    low
}

/// How far the camera moves along one axis: the gap on that axis times
/// `(distance - 50) / 100` times the elapsed seconds, rounded toward zero.
pub open spec fn ease_step(gap: int, distance: int, dt_micros: int) -> int {
    trunc_div(gap * ((distance - DEAD_ZONE) * dt_micros), EASE_RANGE * MICROS_PER_SECOND)
}

/// Where the camera stands after one step toward `target`, as a pair of
/// coordinates.
///
/// Within the dead zone the camera stays. Beyond it each coordinate moves by
/// [`ease_step`], where the distance is rounded down to a whole thousandth.
pub open spec fn spec_follow(camera: Vec2, target: Vec2, dt_micros: int) -> (int, int) {
    let gap_sq = distance_sq(camera, target);
    if gap_sq <= DEAD_ZONE * DEAD_ZONE {
        (camera.x as int, camera.y as int)
    } else {
        let distance = floor_sqrt(gap_sq);
        (
            camera.x + ease_step(target.x - camera.x, distance, dt_micros),
            camera.y + ease_step(target.y - camera.y, distance, dt_micros),
        )
    }
}

/// Where the camera stands after one step toward `target`, as a point.
pub open spec fn spec_followed(camera: Vec2, target: Vec2, dt_micros: int) -> Vec2 {
    Vec2 {
        x: spec_follow(camera, target, dt_micros).0 as i64,
        y: spec_follow(camera, target, dt_micros).1 as i64,
    }
}

proof fn lemma_gap_sq_bound(dx: int, dy: int)
    by (nonlinear_arith)
    requires
        -2_147_483_648 <= dx <= 2_147_483_648,
        -2_147_483_648 <= dy <= 2_147_483_648,
    ensures
        0 <= dx * dx <= 4_611_686_018_427_387_904,
        0 <= dy * dy <= 4_611_686_018_427_387_904,
{
}

proof fn lemma_distance_beyond_dead_zone(gap_sq: int, distance: int)
    by (nonlinear_arith)
    requires
        is_floor_sqrt(gap_sq, distance),
        gap_sq > DEAD_ZONE * DEAD_ZONE,
    ensures
        distance >= DEAD_ZONE,
{
}

proof fn lemma_step_bound(gap: int, reach: int, dt_micros: int)
    by (nonlinear_arith)
    requires
        -2_147_483_648 <= gap <= 2_147_483_648,
        0 <= reach < 4_294_967_296,
        0 <= dt_micros < 4_294_967_296,
    ensures
        0 <= reach * dt_micros <= 18_446_744_073_709_551_616,
        magnitude(gap * (reach * dt_micros)) <= 576_460_752_303_423_488 * (EASE_RANGE
            * MICROS_PER_SECOND),
{
    assert(magnitude(gap * (reach * dt_micros)) <= 2_147_483_648 * 18_446_744_073_709_551_616);
}

/// Moves the camera one step toward `target` after `dt_micros` millionths of
/// a second.
///
/// The step is computed from the current gap alone; no velocity is kept from
/// one call to the next.
pub fn follow(camera: Vec2, target: Vec2, dt_micros: u32) -> (moved: Vec2)
    requires
        in_world(camera),
        in_world(target),
    ensures
        (moved.x as int, moved.y as int) == spec_follow(camera, target, dt_micros as int),
        moved == spec_followed(camera, target, dt_micros as int),
        distance_sq(camera, target) <= DEAD_ZONE * DEAD_ZONE ==> moved == camera,
        dt_micros == 0 ==> moved == camera,
{
    let dx: i64 = target.x - camera.x;
    let dy: i64 = target.y - camera.y;
    proof {
        lemma_gap_sq_bound(dx as int, dy as int);
        lemma_no_time_no_motion(camera, target);
    }
    let gap_sq: i128 = (dx as i128) * (dx as i128) + (dy as i128) * (dy as i128);
    let rest_sq: i128 = (DEAD_ZONE as i128) * (DEAD_ZONE as i128);
    if gap_sq <= rest_sq {
        return camera;
    }
    let distance: u64 = isqrt(gap_sq as u64);
    proof {
        lemma_distance_beyond_dead_zone(gap_sq as int, distance as int);
        lemma_step_bound(dx as int, distance - DEAD_ZONE, dt_micros as int);
        lemma_step_bound(dy as int, distance - DEAD_ZONE, dt_micros as int);
        lemma_trunc_div_bound(
            dx * ((distance - DEAD_ZONE) * dt_micros),
            EASE_RANGE * MICROS_PER_SECOND,
            576_460_752_303_423_488,
        );
        lemma_trunc_div_bound(
            dy * ((distance - DEAD_ZONE) * dt_micros),
            EASE_RANGE * MICROS_PER_SECOND,
            576_460_752_303_423_488,
        );
    }
    let reach: i128 = (distance as i128) - (DEAD_ZONE as i128);
    let gain: i128 = reach * (dt_micros as i128);
    let scale: i128 = (EASE_RANGE as i128) * (MICROS_PER_SECOND as i128);
    let step_x: i128 = div_toward_zero((dx as i128) * gain, scale);
    let step_y: i128 = div_toward_zero((dy as i128) * gain, scale);
    Vec2 { x: camera.x + (step_x as i64), y: camera.y + (step_y as i64) }
}

impl CameraState {
    /// A camera at `position`.
    pub fn new(position: Vec2) -> (camera: CameraState)
        ensures
            camera.position == position,
    {
        CameraState { position }
    }

    /// Eases this camera toward `target`; see [`follow`].
    pub fn follow(&mut self, target: Vec2, dt_micros: u32)
        requires
            in_world(old(self).position),
            in_world(target),
        ensures
            (final(self).position.x as int, final(self).position.y as int) == spec_follow(
                old(self).position,
                target,
                dt_micros as int,
            ),
            final(self).position == spec_followed(old(self).position, target, dt_micros as int),
            distance_sq(old(self).position, target) <= DEAD_ZONE * DEAD_ZONE ==> *final(self)
                == *old(self),
    {
        let moved: Vec2 = follow(self.position, target, dt_micros);
        self.position = moved;
    }
}

/// While the ship is within the dead zone the camera stays where it is,
/// however much time has passed.
pub proof fn lemma_dead_zone_holds_camera(camera: Vec2, target: Vec2, dt_micros: int)
    requires
        distance_sq(camera, target) <= DEAD_ZONE * DEAD_ZONE,
    ensures
        spec_follow(camera, target, dt_micros) == (camera.x as int, camera.y as int),
{
}

/// When no time has passed the camera stays where it is.
pub proof fn lemma_no_time_no_motion(camera: Vec2, target: Vec2)
    ensures
        spec_follow(camera, target, 0) == (camera.x as int, camera.y as int),
{
    let distance = floor_sqrt(distance_sq(camera, target));
    assert((distance - DEAD_ZONE) * 0 == 0);
    assert((target.x - camera.x) * 0 == 0);
    assert((target.y - camera.y) * 0 == 0);
}

/// Beyond the dead zone the camera never steps away from the ship: on each
/// axis the step points the way of the gap.
pub proof fn lemma_step_points_at_target(gap: int, distance: int, dt_micros: int)
    requires
        distance >= DEAD_ZONE,
        dt_micros >= 0,
    ensures
        gap >= 0 ==> ease_step(gap, distance, dt_micros) >= 0,
        gap <= 0 ==> ease_step(gap, distance, dt_micros) <= 0,
{
    let gain = (distance - DEAD_ZONE) * dt_micros;
    assert(gain >= 0) by (nonlinear_arith)
        requires
            gain == (distance - DEAD_ZONE) * dt_micros,
            distance >= DEAD_ZONE,
            dt_micros >= 0,
    ;
    assert(gap >= 0 ==> gap * gain >= 0) by (nonlinear_arith)
        requires
            gain >= 0,
    ;
    assert(gap <= 0 ==> gap * gain <= 0) by (nonlinear_arith)
        requires
            gain >= 0,
    ;
    assert(EASE_RANGE * MICROS_PER_SECOND == 100_000_000_000);
    lemma_trunc_div_bound(
        gap * gain,
        EASE_RANGE * MICROS_PER_SECOND,
        magnitude(gap * gain),
    );
}

} // verus!
