//! Resolution of the control intent along the ship's heading into the force
//! and torque handed to the physics step.

use vstd::prelude::*;
use crate::units::{Vec2, trunc_div, magnitude, div_toward_zero, lemma_trunc_div_bound,
    lemma_trunc_div_remainder};

verus! {

/// One full turn, in thousandths of a degree.
pub const FULL_TURN: i64 = 360_000;

/// The value 1 of a heading component: components are in millionths.
pub const HEADING_ONE: i64 = 1_000_000;

/// The angle that the trigonometry is evaluated at: a negative angle is
/// shifted up by one full turn, any other is kept.
pub open spec fn spec_normalize_degrees(raw: int) -> int {
    if raw < 0 {
        raw + FULL_TURN
    } else {
        raw
    }
}

/// Re-biases an orientation, in thousandths of a degree, before it is used.
///
/// An angle within one turn of zero, on either side, comes out in `[0°, 360°)`.
pub fn normalize_degrees(raw: i64) -> (degrees: i64)
    ensures
        degrees == spec_normalize_degrees(raw as int),
        -FULL_TURN <= raw < FULL_TURN ==> 0 <= degrees < FULL_TURN,
{
    if raw < 0 {
        raw + FULL_TURN
    } else {
        raw
    }
}

/// The direction the ship points in: cosine and sine of its normalized
/// orientation, in millionths.
#[derive(Clone, Copy, Debug, PartialEq, Eq, Structural)]
pub struct Heading {
    pub cos: i64,
    pub sin: i64,
}

impl Heading {
    /// Neither component exceeds 1 in magnitude.
    pub open spec fn wf(self) -> bool {
        &&& -HEADING_ONE <= self.cos <= HEADING_ONE
        &&& -HEADING_ONE <= self.sin <= HEADING_ONE
    }

    /// The squared length of the heading, in millionths squared.
    pub open spec fn norm_sq(self) -> int {
        self.cos * self.cos + self.sin * self.sin
    }

    /// Accepts a pair of components when neither exceeds 1 in magnitude.
    pub fn new(cos: i64, sin: i64) -> (heading: Option<Heading>)
        ensures
            heading is Some <==> (Heading { cos, sin }).wf(),
            heading is Some ==> heading->0 == (Heading { cos, sin }),
    {
        if -HEADING_ONE <= cos && cos <= HEADING_ONE && -HEADING_ONE <= sin && sin <= HEADING_ONE {
            Some(Heading { cos, sin })
        } else {
            None
        }
    }
}

/// What one tick asks of the physics step.
#[derive(Clone, Copy, Debug, PartialEq, Eq, Structural)]
pub struct ForceCommand {
    /// Force on the body, in thousandths.
    pub linear_force: Vec2,
    /// Torque on the body, in thousandths.
    pub torque: i64,
}

/// `value` times a heading component, rounded toward zero.
pub open spec fn spec_scale(value: int, component: int) -> int {
    trunc_div(value * component, HEADING_ONE as int)
}

/// Multiplies `value` by a heading component and rounds toward zero.
pub fn scale(value: i64, component: i64) -> (scaled: i64)
    requires
        -HEADING_ONE <= component <= HEADING_ONE,
        value > i64::MIN,
    ensures
        scaled == spec_scale(value as int, component as int),
        magnitude(scaled as int) <= magnitude(value as int),
{
    proof {
        lemma_product_bound(value as int, component as int);
        lemma_trunc_div_bound(value * component, HEADING_ONE as int, magnitude(value as int));
    }
    let product: i128 = (value as i128) * (component as i128);
    let quotient: i128 = div_toward_zero(product, HEADING_ONE as i128);
    quotient as i64
}

proof fn lemma_product_bound(value: int, component: int)
    by (nonlinear_arith)
    requires
        -HEADING_ONE <= component <= HEADING_ONE,
    ensures
        magnitude(value * component) <= magnitude(value) * HEADING_ONE,
{
}

/// The command that an acceleration and a turn resolve to along `heading`.
pub open spec fn spec_resolve(heading: Heading, accel: i64, turn: i64) -> ForceCommand {
    ForceCommand {
        linear_force: Vec2 {
            x: spec_scale(accel as int, heading.cos as int) as i64,
            y: spec_scale(accel as int, heading.sin as int) as i64,
        },
        torque: turn,
    }
}

/// Resolves an acceleration along `heading` and passes the turn through as
/// torque.
///
/// The force is `(cos, sin) * accel`, each component rounded toward zero. A
/// zero acceleration gives the zero force.
pub fn resolve(heading: Heading, accel: i64, turn: i64) -> (command: ForceCommand)
    requires
        heading.wf(),
        accel > i64::MIN,
    ensures
        command == spec_resolve(heading, accel, turn),
        command.linear_force.x == spec_scale(accel as int, heading.cos as int),
        command.linear_force.y == spec_scale(accel as int, heading.sin as int),
        command.torque == turn,
        accel == 0 ==> command.linear_force == (Vec2 { x: 0, y: 0 }),
{
    let x: i64 = scale(accel, heading.cos);
    let y: i64 = scale(accel, heading.sin);
    ForceCommand { linear_force: Vec2 { x, y }, torque: turn }
}

/// An orientation shifted by one full turn resolves like the orientation
/// itself: a negative angle within one turn of zero is normalized to the same
/// angle as its shift by +360°, so both lead to the same heading and force.
pub proof fn lemma_negative_angle_matches_shifted(raw: int)
    requires
        -FULL_TURN <= raw < 0,
    ensures
        spec_normalize_degrees(raw) == spec_normalize_degrees(raw + FULL_TURN),
        0 <= spec_normalize_degrees(raw) < FULL_TURN,
{
}

/// A normalized angle is left as it is.
pub proof fn lemma_normalize_is_idempotent(raw: int)
    requires
        -FULL_TURN <= raw,
    ensures
        spec_normalize_degrees(spec_normalize_degrees(raw)) == spec_normalize_degrees(raw),
{
}

/// Each force component points the way of `accel` times the heading
/// component and differs from that product by less than one thousandth.
pub proof fn lemma_force_follows_heading(accel: int, component: int)
    ensures
        accel * component >= 0 ==> spec_scale(accel, component) >= 0,
        accel * component <= 0 ==> spec_scale(accel, component) <= 0,
        magnitude(spec_scale(accel, component)) * HEADING_ONE <= magnitude(accel * component),
        magnitude(accel * component) < (magnitude(spec_scale(accel, component)) + 1)
            * HEADING_ONE,
{
    lemma_trunc_div_remainder(accel * component, HEADING_ONE as int);
}

/// Along a heading no longer than 1 the force is no longer than the
/// acceleration.
pub proof fn lemma_force_not_longer_than_accel(heading: Heading, accel: int)
    requires
        heading.norm_sq() <= HEADING_ONE * HEADING_ONE,
    ensures
        spec_scale(accel, heading.cos as int) * spec_scale(accel, heading.cos as int) + spec_scale(
            accel,
            heading.sin as int,
        ) * spec_scale(accel, heading.sin as int) <= accel * accel,
{
    let c = heading.cos as int;
    let s = heading.sin as int;
    let fx = spec_scale(accel, c);
    let fy = spec_scale(accel, s);
    lemma_trunc_div_remainder(accel * c, HEADING_ONE as int);
    lemma_trunc_div_remainder(accel * s, HEADING_ONE as int);
    lemma_shorter_squares(fx, accel, c);
    lemma_shorter_squares(fy, accel, s);
    assert(accel * accel >= 0) by (nonlinear_arith);
    lemma_sum_of_squares_bounded(
        fx * fx,
        fy * fy,
        accel * accel,
        c * c,
        s * s,
        HEADING_ONE * HEADING_ONE,
    );
}

proof fn lemma_sum_of_squares_bounded(fx2: int, fy2: int, a2: int, c2: int, s2: int, one2: int)
    by (nonlinear_arith)
    requires
        one2 > 0,
        a2 >= 0,
        fx2 * one2 <= a2 * c2,
        fy2 * one2 <= a2 * s2,
        c2 + s2 <= one2,
    ensures
        fx2 + fy2 <= a2,
{
    assert((fx2 + fy2) * one2 <= a2 * (c2 + s2));
    assert(a2 * (c2 + s2) <= a2 * one2);
}

proof fn lemma_sum_of_squares_exceeds(gx2: int, gy2: int, a2: int, c2: int, s2: int, one2: int)
    by (nonlinear_arith)
    requires
        one2 > 0,
        a2 >= 0,
        a2 * c2 < gx2 * one2,
        a2 * s2 < gy2 * one2,
        c2 + s2 >= one2,
    ensures
        a2 < gx2 + gy2,
{
    assert(a2 * (c2 + s2) < (gx2 + gy2) * one2);
    assert(a2 * one2 <= a2 * (c2 + s2));
}

proof fn lemma_shorter_squares(f: int, accel: int, component: int)
    by (nonlinear_arith)
    requires
        magnitude(f) * HEADING_ONE <= magnitude(accel * component),
    ensures
        f * f * (HEADING_ONE * HEADING_ONE) <= accel * accel * (component * component),
{
}

/// Along a heading no shorter than 1 the force falls short of the
/// acceleration by less than one thousandth in each component.
pub proof fn lemma_force_not_shorter_than_accel(heading: Heading, accel: int)
    requires
        heading.norm_sq() >= HEADING_ONE * HEADING_ONE,
    ensures
        accel * accel < (magnitude(spec_scale(accel, heading.cos as int)) + 1) * (magnitude(
            spec_scale(accel, heading.cos as int),
        ) + 1) + (magnitude(spec_scale(accel, heading.sin as int)) + 1) * (magnitude(
            spec_scale(accel, heading.sin as int),
        ) + 1),
{
    let c = heading.cos as int;
    let s = heading.sin as int;
    let gx = magnitude(spec_scale(accel, c)) + 1;
    let gy = magnitude(spec_scale(accel, s)) + 1;
    lemma_trunc_div_remainder(accel * c, HEADING_ONE as int);
    lemma_trunc_div_remainder(accel * s, HEADING_ONE as int);
    lemma_longer_squares(gx, accel, c);
    lemma_longer_squares(gy, accel, s);
    assert(accel * accel >= 0) by (nonlinear_arith);
    lemma_sum_of_squares_exceeds(
        gx * gx,
        gy * gy,
        accel * accel,
        c * c,
        s * s,
        HEADING_ONE * HEADING_ONE,
    );
}

/// Along a heading of length 1 the force is as long as the acceleration, up
/// to the rounding of its two components: it is no longer, and adding one
/// thousandth to each component makes it longer.
pub proof fn lemma_force_is_as_long_as_accel(heading: Heading, accel: int)
    requires
        heading.norm_sq() == HEADING_ONE * HEADING_ONE,
    ensures
        ({
            let x = magnitude(spec_scale(accel, heading.cos as int));
            let y = magnitude(spec_scale(accel, heading.sin as int));
            x * x + y * y <= accel * accel < (x + 1) * (x + 1) + (y + 1) * (y + 1)
        }),
{
    lemma_force_not_longer_than_accel(heading, accel);
    lemma_force_not_shorter_than_accel(heading, accel);
    let fx = spec_scale(accel, heading.cos as int);
    let fy = spec_scale(accel, heading.sin as int);
    assert(magnitude(fx) * magnitude(fx) == fx * fx) by (nonlinear_arith);
    assert(magnitude(fy) * magnitude(fy) == fy * fy) by (nonlinear_arith);
}

proof fn lemma_longer_squares(g: int, accel: int, component: int)
    by (nonlinear_arith)
    requires
        g > 0,
        magnitude(accel * component) < g * HEADING_ONE,
    ensures
        accel * accel * (component * component) < g * g * (HEADING_ONE * HEADING_ONE),
{
}

} // verus!
