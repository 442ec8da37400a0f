use vstd::prelude::*;

verus! {

/// Where an entity stands, in world units.
#[derive(Clone, Copy, Debug, Default, PartialEq, Eq, Hash, Structural)]
pub struct Position {
    pub x: i64,
    pub y: i64,
}

/// How fast an entity moves, in world units per millisecond.
#[derive(Clone, Copy, Debug, Default, PartialEq, Eq, Hash, Structural)]
pub struct Velocity {
    pub x: i64,
    pub y: i64,
}

/// How fast an entity's velocity changes, in world units per millisecond per millisecond.
#[derive(Clone, Copy, Debug, Default, PartialEq, Eq, Hash, Structural)]
pub struct Acceleration {
    pub x: i64,
    pub y: i64,
}

/// The components that take part in motion integration.
#[derive(Clone, Copy, Debug, Default, PartialEq, Eq, Hash, Structural)]
pub struct PhysicsBundle {
    pub position: Position,
    pub velocity: Velocity,
    pub acceleration: Acceleration,
}

/// The time that a step covers, in milliseconds.
#[derive(Clone, Copy, Debug, Default, PartialEq, Eq, Hash, Structural)]
pub struct DeltaTime(pub u64);

/// `x` brought into the range of `i64`.
pub open spec fn clamp(x: int) -> int {
    if x < i64::MIN {
        i64::MIN as int
    } else if x > i64::MAX {
        i64::MAX as int
    } else {
        x
    }
}

/// One axis of an explicit integration step: `base + rate * dt`, where the
/// product and the sum each saturate at the bounds of `i64`.
pub open spec fn advance_axis(base: int, rate: int, dt: int) -> int {
    clamp(base + clamp(rate * dt))
}

/// The sign of `x`: -1, 0 or 1.
pub open spec fn sign(x: int) -> int {
    if x < 0 {
        -1
    } else if x > 0 {
        1
    } else {
        0
    }
}

/// Brings an `i128` into the range of `i64`.
fn saturate(x: i128) -> (r: i64)
    ensures
        r == clamp(x as int),
{
    if x < i64::MIN as i128 {
        i64::MIN
    } else if x > i64::MAX as i128 {
        i64::MAX
    } else {
        x as i64
    }
}

/// Computes `advance_axis(base, rate, dt)` without overflow.
pub fn advance_axis_exec(base: i64, rate: i64, dt: u64) -> (r: i64)
    ensures
        r == advance_axis(base as int, rate as int, dt as int),
{
    let rate_w: i128 = rate as i128;
    let dt_w: i128 = dt as i128;
    assert(-0x8000_0000_0000_0000 * 0xffff_ffff_ffff_ffff <= rate_w * dt_w
        <= 0x7fff_ffff_ffff_ffff * 0xffff_ffff_ffff_ffff) by (nonlinear_arith)
        requires
            -0x8000_0000_0000_0000 <= rate_w <= 0x7fff_ffff_ffff_ffff,
            0 <= dt_w <= 0xffff_ffff_ffff_ffff,
    ;
    let product = saturate(rate_w * dt_w);
    saturate(base as i128 + product as i128)
}

/// Adds `strength` toward the sign of `p` to `a`, saturating.
pub open spec fn push_axis(a: int, p: int, strength: int) -> int {
    clamp(a + strength * sign(p))
}

/// Computes `push_axis(a, p, strength)` without overflow.
pub fn push_axis_exec(a: i64, p: i64, strength: i64) -> (r: i64)
    ensures
        r == push_axis(a as int, p as int, strength as int),
{
    if p > 0 {
        saturate(a as i128 + strength as i128)
    } else if p < 0 {
        saturate(a as i128 - strength as i128)
    } else {
        a
    }
}

} // verus!
