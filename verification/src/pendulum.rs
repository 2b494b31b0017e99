//! The double pendulum: two coupled arms advanced by the closed-form
//! Lagrangian angular accelerations and a semi-implicit Euler integrator.
//!
//! All state lives in fixed-point values (see `crate::fixed`), so a step is a
//! total function of the previous state.  `step_model` is the mathematical
//! description of one step; `DoublePendulum::update` is proved to compute
//! exactly that model, which makes the trajectory a function of the initial
//! state alone.

use vstd::prelude::*;
use crate::fixed::{
    add_fp, cos_fp, cos_val, div_fp, mul_fp, neg_fp, sat_add, sat_mul, sat_neg,
    sat_sub, sat_div, sin_fp, sin_val, sub_fp,
};

verus! {

/// A Cartesian point or displacement, in fixed-point world coordinates.
#[derive(Clone, Copy, PartialEq, Eq, Structural, Debug)]
pub struct Vec2 {
    pub x: i64,
    pub y: i64,
}

/// One rigid arm of the double pendulum.
#[derive(Clone, Copy, PartialEq, Eq, Structural, Debug)]
pub struct Pendulum {
    pub radius: i64,
    pub mass: i64,
    pub angle: i64,
    pub angular_velocity: i64,
    pub angular_acceleration: i64,
    pub position: Vec2,
}

/// A coupled two-arm pendulum with its anchor, gravity and trail.
#[derive(Debug)]
pub struct DoublePendulum {
    pub first_pendulum: Pendulum,
    pub second_pendulum: Pendulum,
    pub gravity: i64,
    pub origin: Vec2,
    pub path: Vec<Vec2>,
}

/// Mathematical image of a `Vec2`.
pub ghost struct Vec2Model {
    pub x: int,
    pub y: int,
}

/// Mathematical image of a `Pendulum`.
pub ghost struct PendulumModel {
    pub radius: int,
    pub mass: int,
    pub angle: int,
    pub angular_velocity: int,
    pub angular_acceleration: int,
    pub position: Vec2Model,
}

/// Mathematical image of a `DoublePendulum`.
#[verifier::ext_equal]
pub ghost struct DoublePendulumModel {
    pub first_pendulum: PendulumModel,
    pub second_pendulum: PendulumModel,
    pub gravity: int,
    pub origin: Vec2Model,
    pub path: Seq<Vec2Model>,
}

impl View for Vec2 {
    type V = Vec2Model;

    open spec fn view(&self) -> Vec2Model {
        Vec2Model { x: self.x as int, y: self.y as int }
    }
}

impl View for Pendulum {
    type V = PendulumModel;

    open spec fn view(&self) -> PendulumModel {
        PendulumModel {
            radius: self.radius as int,
            mass: self.mass as int,
            angle: self.angle as int,
            angular_velocity: self.angular_velocity as int,
            angular_acceleration: self.angular_acceleration as int,
            position: self.position@,
        }
    }
}

impl View for DoublePendulum {
    type V = DoublePendulumModel;

    open spec fn view(&self) -> DoublePendulumModel {
        DoublePendulumModel {
            first_pendulum: self.first_pendulum@,
            second_pendulum: self.second_pendulum@,
            gravity: self.gravity as int,
            origin: self.origin@,
            path: self.path@.map_values(|p: Vec2| p@),
        }
    }
}

impl Pendulum {
    /// The documented construction precondition: a degenerate arm (zero or
    /// negative length or mass) is excluded, not checked at run time.
    pub open spec fn wf(self) -> bool {
        self.radius > 0 && self.mass > 0
    }
}

impl DoublePendulum {
    pub open spec fn wf(self) -> bool {
        self.first_pendulum.wf() && self.second_pendulum.wf()
    }
}

/// The denominator core shared by both angular accelerations:
/// 2 m1 + m2 - m2 cos(2 t1 - 2 t2).
pub open spec fn accel_core(s: DoublePendulumModel) -> int {
    let m1 = s.first_pendulum.mass;
    let m2 = s.second_pendulum.mass;
    let t1 = s.first_pendulum.angle;
    let t2 = s.second_pendulum.angle;
    sat_sub(
        sat_add(sat_add(m1, m1), m2),
        sat_mul(m2, cos_val(sat_sub(sat_add(t1, t1), sat_add(t2, t2)))),
    )
}

/// Angular acceleration of the first arm:
/// [-g (2 m1 + m2) sin t1 - m2 g sin(t1 - 2 t2)
///  - 2 sin(t1 - t2) m2 (w2^2 l2 + w1^2 l1 cos(t1 - t2))]
/// / [l1 (2 m1 + m2 - m2 cos(2 t1 - 2 t2))].
pub open spec fn first_accel(s: DoublePendulumModel) -> int {
    let m1 = s.first_pendulum.mass;
    let m2 = s.second_pendulum.mass;
    let l1 = s.first_pendulum.radius;
    let l2 = s.second_pendulum.radius;
    let t1 = s.first_pendulum.angle;
    let t2 = s.second_pendulum.angle;
    let w1 = s.first_pendulum.angular_velocity;
    let w2 = s.second_pendulum.angular_velocity;
    let g = s.gravity;
    let d = sat_sub(t1, t2);
    let sd = sin_val(d);
    let part1 = sat_mul(sat_mul(sat_neg(g), sat_add(sat_add(m1, m1), m2)), sin_val(t1));
    let part2 = sat_mul(sat_mul(sat_neg(m2), g), sin_val(sat_sub(t1, sat_add(t2, t2))));
    let part3 = sat_neg(sat_mul(sat_add(sd, sd), m2));
    let part4 = sat_add(
        sat_mul(sat_mul(w2, w2), l2),
        sat_mul(sat_mul(sat_mul(w1, w1), l1), cos_val(d)),
    );
    sat_div(
        sat_add(sat_add(part1, part2), sat_mul(part3, part4)),
        sat_mul(l1, accel_core(s)),
    )
}

/// Angular acceleration of the second arm:
/// [2 sin(t1 - t2) (w1^2 l1 (m1 + m2) + g (m1 + m2) cos t1
///  + w2^2 l2 m2 cos(t1 - t2))]
/// / [l2 (2 m1 + m2 - m2 cos(2 t1 - 2 t2))].
pub open spec fn second_accel(s: DoublePendulumModel) -> int {
    let m1 = s.first_pendulum.mass;
    let m2 = s.second_pendulum.mass;
    let l1 = s.first_pendulum.radius;
    let l2 = s.second_pendulum.radius;
    let t1 = s.first_pendulum.angle;
    let t2 = s.second_pendulum.angle;
    let w1 = s.first_pendulum.angular_velocity;
    let w2 = s.second_pendulum.angular_velocity;
    let g = s.gravity;
    let d = sat_sub(t1, t2);
    let sd = sin_val(d);
    let part6 = sat_mul(sat_mul(sat_mul(w1, w1), l1), sat_add(m1, m2));
    let part7 = sat_mul(sat_mul(g, sat_add(m1, m2)), cos_val(t1));
    let part8 = sat_mul(sat_mul(sat_mul(sat_mul(w2, w2), l2), m2), cos_val(d));
    sat_div(
        sat_mul(sat_add(sd, sd), sat_add(sat_add(part6, part7), part8)),
        sat_mul(l2, accel_core(s)),
    )
}

/// The endpoint of an arm of the given length and angle hanging from `base`:
/// angle 0 points along the reference "down" axis, sine gives the horizontal
/// component and cosine the vertical one.
pub open spec fn arm_end(base: Vec2Model, radius: int, angle: int) -> Vec2Model {
    Vec2Model {
        x: sat_add(base.x, sat_mul(radius, sin_val(angle))),
        y: sat_add(base.y, sat_mul(radius, cos_val(angle))),
    }
}

/// One full step of the coupled system: both angular accelerations from the
/// Lagrangian closed form, then semi-implicit Euler (velocity first, then
/// angle with the updated velocity), then the derived Cartesian positions,
/// then the new second endpoint appended to the trail.
pub open spec fn step_model(s: DoublePendulumModel) -> DoublePendulumModel {
    let a1 = first_accel(s);
    let a2 = second_accel(s);
    let w1 = sat_add(s.first_pendulum.angular_velocity, a1);
    let t1 = sat_add(s.first_pendulum.angle, w1);
    let w2 = sat_add(s.second_pendulum.angular_velocity, a2);
    let t2 = sat_add(s.second_pendulum.angle, w2);
    let p1 = arm_end(s.origin, s.first_pendulum.radius, t1);
    let p2 = arm_end(p1, s.second_pendulum.radius, t2);
    DoublePendulumModel {
        first_pendulum: PendulumModel {
            radius: s.first_pendulum.radius,
            mass: s.first_pendulum.mass,
            angle: t1,
            angular_velocity: w1,
            angular_acceleration: a1,
            position: p1,
        },
        second_pendulum: PendulumModel {
            radius: s.second_pendulum.radius,
            mass: s.second_pendulum.mass,
            angle: t2,
            angular_velocity: w2,
            angular_acceleration: a2,
            position: p2,
        },
        gravity: s.gravity,
        origin: s.origin,
        path: s.path.push(p2),
    }
}

impl DoublePendulum {
    /// Advance the system by one unit time step.
    ///
    /// The new state is exactly `step_model` of the old one: accelerations
    /// from the closed-form equations, symplectic Euler integration, derived
    /// positions consistent with the new angles, and the new second endpoint
    /// appended to the trail.
    pub fn update(&mut self)
        requires
            old(self).wf(),
        ensures
            final(self)@ == step_model(old(self)@),
            final(self).wf(),
            final(self)@.path == old(self)@.path.push(final(self).second_pendulum.position@),
            final(self).first_pendulum.position@ == arm_end(
                old(self).origin@,
                old(self).first_pendulum.radius as int,
                final(self).first_pendulum.angle as int,
            ),
            final(self).second_pendulum.position@ == arm_end(
                final(self).first_pendulum.position@,
                old(self).second_pendulum.radius as int,
                final(self).second_pendulum.angle as int,
            ),
    {
        let t1 = self.first_pendulum.angle;
        let t2 = self.second_pendulum.angle;
        let w1 = self.first_pendulum.angular_velocity;
        let w2 = self.second_pendulum.angular_velocity;
        let l1 = self.first_pendulum.radius;
        let l2 = self.second_pendulum.radius;
        let m1 = self.first_pendulum.mass;
        let m2 = self.second_pendulum.mass;
        let g = self.gravity;

        let d = sub_fp(t1, t2);
        let sd = sin_fp(d);
        let cd = cos_fp(d);
        let core = sub_fp(
            add_fp(add_fp(m1, m1), m2),
            mul_fp(m2, cos_fp(sub_fp(add_fp(t1, t1), add_fp(t2, t2)))),
        );
        let w1sq = mul_fp(w1, w1);
        let w2sq = mul_fp(w2, w2);

        let part1 = mul_fp(mul_fp(neg_fp(g), add_fp(add_fp(m1, m1), m2)), sin_fp(t1));
        let part2 = mul_fp(mul_fp(neg_fp(m2), g), sin_fp(sub_fp(t1, add_fp(t2, t2))));
        let part3 = neg_fp(mul_fp(add_fp(sd, sd), m2));
        let part4 = add_fp(mul_fp(w2sq, l2), mul_fp(mul_fp(w1sq, l1), cd));
        let acc1 = div_fp(
            add_fp(add_fp(part1, part2), mul_fp(part3, part4)),
            mul_fp(l1, core),
        );

        let part6 = mul_fp(mul_fp(w1sq, l1), add_fp(m1, m2));
        let part7 = mul_fp(mul_fp(g, add_fp(m1, m2)), cos_fp(t1));
        let part8 = mul_fp(mul_fp(mul_fp(w2sq, l2), m2), cd);
        let acc2 = div_fp(
            mul_fp(add_fp(sd, sd), add_fp(add_fp(part6, part7), part8)),
            mul_fp(l2, core),
        );

        let nw1 = add_fp(w1, acc1);
        let nt1 = add_fp(t1, nw1);
        let nw2 = add_fp(w2, acc2);
        let nt2 = add_fp(t2, nw2);

        let p1 = Vec2 {
            x: add_fp(self.origin.x, mul_fp(l1, sin_fp(nt1))),
            y: add_fp(self.origin.y, mul_fp(l1, cos_fp(nt1))),
        };
        let p2 = Vec2 {
            x: add_fp(p1.x, mul_fp(l2, sin_fp(nt2))),
            y: add_fp(p1.y, mul_fp(l2, cos_fp(nt2))),
        };

        self.first_pendulum.angular_acceleration = acc1;
        self.first_pendulum.angular_velocity = nw1;
        self.first_pendulum.angle = nt1;
        self.first_pendulum.position = p1;
        self.second_pendulum.angular_acceleration = acc2;
        self.second_pendulum.angular_velocity = nw2;
        self.second_pendulum.angle = nt2;
        self.second_pendulum.position = p2;
        self.path.push(p2);

        proof {
            assert(self.path@.map_values(|p: Vec2| p@)
                =~= old(self).path@.map_values(|p: Vec2| p@).push(p2@));
            assert(self@ =~= step_model(old(self)@));
        }
    }
}

/// The state after `n` steps from `s`.
pub open spec fn advance(s: DoublePendulumModel, n: nat) -> DoublePendulumModel
    decreases n,
{
    if n == 0 {
        s
    } else {
        step_model(advance(s, (n - 1) as nat))
    }
}

/// Law: the simulation is deterministic.  Two systems seeded with identical
/// parameters and stepped the same number of times pass through identical
/// states; `step_model` is a function of the state alone, and `update` is
/// proved equal to it.
pub proof fn lemma_deterministic(a: DoublePendulumModel, b: DoublePendulumModel, n: nat)
    requires
        a == b,
    ensures
        advance(a, n) == advance(b, n),
{
}

/// Law: arm lengths, masses, gravity and the anchor are fixed at
/// construction; stepping never changes them.
pub proof fn lemma_parameters_immutable(s: DoublePendulumModel, n: nat)
    ensures
        advance(s, n).first_pendulum.radius == s.first_pendulum.radius,
        advance(s, n).first_pendulum.mass == s.first_pendulum.mass,
        advance(s, n).second_pendulum.radius == s.second_pendulum.radius,
        advance(s, n).second_pendulum.mass == s.second_pendulum.mass,
        advance(s, n).gravity == s.gravity,
        advance(s, n).origin == s.origin,
    decreases n,
{
    if n > 0 {
        lemma_parameters_immutable(s, (n - 1) as nat);
    }
}

/// The second arm's position observed immediately after the step numbered
/// `i + 1` (counting from one) out of a run that starts at `s`.
pub open spec fn trail_entry(s: DoublePendulumModel, i: int) -> Vec2Model {
    advance(s, (i + 1) as nat).second_pendulum.position
}

/// Law: after `n` steps from `s` the trail has grown by exactly `n` entries,
/// in call order, the earlier entries untouched, and the entry added by each
/// step equal to the second arm's position right after that step.
pub proof fn lemma_path_growth(s: DoublePendulumModel, n: nat)
    ensures
        advance(s, n).path.len() == s.path.len() + n,
        forall|j: int| 0 <= j < s.path.len() ==> advance(s, n).path[j] == s.path[j],
        forall|i: int| 0 <= i < n ==> advance(s, n).path[s.path.len() + i]
            == #[trigger] trail_entry(s, i),
    decreases n,
{
    if n > 0 {
        let prev = advance(s, (n - 1) as nat);
        lemma_path_growth(s, (n - 1) as nat);
        assert(advance(s, n).path == prev.path.push(step_model(prev).second_pendulum.position));
        assert forall|i: int| 0 <= i < n implies advance(s, n).path[s.path.len() + i]
            == #[trigger] trail_entry(s, i) by {
            if i < n - 1 {
                assert(prev.path[s.path.len() + i] == trail_entry(s, i));
            } else {
                assert(advance(s, (i + 1) as nat) == advance(s, n));
            }
        }
    }
}

} // verus!
