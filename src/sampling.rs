//! Rejection sampling of random points in the unit ball and the unit disk.
//!
//! A coordinate drawn uniformly from `[-1, 1)` is held exactly, in fixed
//! point: a raw 32-bit draw `k` stands for `(k - 2^31) / 2^31`. The test that
//! rejects a candidate is made on these exact values.

use vstd::prelude::*;
use crate::rng::{Rng, advance, output, step};

verus! {

/// The fixed-point unit: a coordinate `c` stands for `c / UNIT`.
pub const UNIT: i64 = 0x8000_0000;

/// A point whose coordinates are fixed-point values in units of `1 / UNIT`.
#[derive(Clone, Copy, Debug, PartialEq, Eq, Structural)]
pub struct FixedVec3 {
    pub x: i64,
    pub y: i64,
    pub z: i64,
}

/// The coordinate that a raw draw stands for: its distance from the middle
/// of the 32-bit range.
pub open spec fn coordinate(k: u32) -> int {
    k - UNIT
}

/// The squared length of a point, in units of `1 / UNIT^2`.
pub open spec fn norm2(p: FixedVec3) -> int {
    p.x * p.x + p.y * p.y + p.z * p.z
}

/// Strictly inside the unit ball.
pub open spec fn in_unit_ball(p: FixedVec3) -> bool {
    norm2(p) < UNIT * UNIT
}

/// Strictly inside the unit disk of the plane `z = 0`.
pub open spec fn in_unit_disk(p: FixedVec3) -> bool {
    p.z == 0 && norm2(p) < UNIT * UNIT
}

/// The candidate made of the next three draws from state `s`, in x, y, z order.
pub open spec fn ball_candidate(s: u64) -> FixedVec3 {
    FixedVec3 {
        x: coordinate(output(advance(s, 1))) as i64,
        y: coordinate(output(advance(s, 2))) as i64,
        z: coordinate(output(advance(s, 3))) as i64,
    }
}

/// The candidate made of the next two draws from state `s`, with `z = 0`.
pub open spec fn disk_candidate(s: u64) -> FixedVec3 {
    FixedVec3 {
        x: coordinate(output(advance(s, 1))) as i64,
        y: coordinate(output(advance(s, 2))) as i64,
        z: 0,
    }
}

/// Rejection sampling in the ball from state `s` with at most `attempts`
/// candidates: the first candidate inside the ball, and the state after it;
/// `None` and the state after the last candidate when all were rejected.
pub open spec fn ball_sample(s: u64, attempts: nat) -> (Option<FixedVec3>, u64)
    decreases attempts,
{
    if attempts == 0 {
        (None, s)
    } else if in_unit_ball(ball_candidate(s)) {
        (Some(ball_candidate(s)), advance(s, 3))
    } else {
        ball_sample(advance(s, 3), (attempts - 1) as nat)
    }
}

/// Rejection sampling in the disk, as `ball_sample` with two draws per candidate.
pub open spec fn disk_sample(s: u64, attempts: nat) -> (Option<FixedVec3>, u64)
    decreases attempts,
{
    if attempts == 0 {
        (None, s)
    } else if in_unit_disk(disk_candidate(s)) {
        (Some(disk_candidate(s)), advance(s, 2))
    } else {
        disk_sample(advance(s, 2), (attempts - 1) as nat)
    }
}

/// Draws one coordinate, uniform over `[-1, 1)` in fixed point.
fn draw_coordinate(rng: &mut Rng) -> (c: i64)
    ensures
        final(rng)@ == step(old(rng)@),
        c == coordinate(output(final(rng)@)),
        -UNIT <= c < UNIT,
{
    let k = rng.next_u32();
    k as i64 - UNIT
}

/// Draws the next ball candidate.
fn draw_ball_candidate(rng: &mut Rng) -> (p: FixedVec3)
    ensures
        p == ball_candidate(old(rng)@),
        final(rng)@ == advance(old(rng)@, 3),
        -UNIT <= p.x < UNIT,
        -UNIT <= p.y < UNIT,
        -UNIT <= p.z < UNIT,
{
    let ghost s = rng@;
    let x = draw_coordinate(rng);
    let y = draw_coordinate(rng);
    let z = draw_coordinate(rng);
    proof {
        reveal_with_fuel(advance, 4);
    }
    FixedVec3 { x, y, z }
}

/// Draws the next disk candidate.
fn draw_disk_candidate(rng: &mut Rng) -> (p: FixedVec3)
    ensures
        p == disk_candidate(old(rng)@),
        final(rng)@ == advance(old(rng)@, 2),
        -UNIT <= p.x < UNIT,
        -UNIT <= p.y < UNIT,
        p.z == 0,
{
    let ghost s = rng@;
    let x = draw_coordinate(rng);
    let y = draw_coordinate(rng);
    proof {
        reveal_with_fuel(advance, 3);
    }
    FixedVec3 { x, y, z: 0 }
}

/// Squared length of a point whose coordinates lie in `[-UNIT, UNIT]`.
fn squared_length(p: &FixedVec3) -> (r: u64)
    requires
        -UNIT <= p.x <= UNIT,
        -UNIT <= p.y <= UNIT,
        -UNIT <= p.z <= UNIT,
    ensures
        r == norm2(*p),
{
    let (x, y, z) = (p.x, p.y, p.z);
    assert(0 <= x * x <= 0x4000_0000_0000_0000) by (nonlinear_arith)
        requires
            -0x8000_0000 <= x <= 0x8000_0000,
    ;
    assert(0 <= y * y <= 0x4000_0000_0000_0000) by (nonlinear_arith)
        requires
            -0x8000_0000 <= y <= 0x8000_0000,
    ;
    assert(0 <= z * z <= 0x4000_0000_0000_0000) by (nonlinear_arith)
        requires
            -0x8000_0000 <= z <= 0x8000_0000,
    ;
    (x * x) as u64 + (y * y) as u64 + (z * z) as u64
}

/// A random point strictly inside the unit ball: candidates with coordinates
/// uniform over `[-1, 1)` are drawn until one has squared length below 1, at
/// most `attempts` of them.
pub fn random_in_unit_sphere(rng: &mut Rng, attempts: u32) -> (r: Option<FixedVec3>)
    ensures
        (r, final(rng)@) == ball_sample(old(rng)@, attempts as nat),
        r matches Some(p) ==> in_unit_ball(p),
{
    let ghost start = rng@;
    let mut left = attempts;
    while left > 0
        invariant
            start == old(rng)@,
            ball_sample(rng@, left as nat) == ball_sample(start, attempts as nat),
        decreases left,
    {
        let ghost s = rng@;
        let p = draw_ball_candidate(rng);
        assert(UNIT * UNIT == 0x4000_0000_0000_0000);
        if squared_length(&p) < 0x4000_0000_0000_0000 {
            return Some(p);
        }
        left = left - 1;
    }
    None
}

/// A random point strictly inside the unit disk of the plane `z = 0`, drawn
/// as `random_in_unit_sphere` draws, with two coordinates per candidate.
pub fn random_in_unit_disk(rng: &mut Rng, attempts: u32) -> (r: Option<FixedVec3>)
    ensures
        (r, final(rng)@) == disk_sample(old(rng)@, attempts as nat),
        r matches Some(p) ==> in_unit_disk(p),
{
    let ghost start = rng@;
    let mut left = attempts;
    while left > 0
        invariant
            start == old(rng)@,
            disk_sample(rng@, left as nat) == disk_sample(start, attempts as nat),
        decreases left,
    {
        let ghost s = rng@;
        let p = draw_disk_candidate(rng);
        assert(UNIT * UNIT == 0x4000_0000_0000_0000);
        if squared_length(&p) < 0x4000_0000_0000_0000 {
            return Some(p);
        }
        left = left - 1;
    }
    None
}

} // verus!
