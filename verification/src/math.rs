use vstd::prelude::*;

verus! {

/// One world unit, in the thousandths that lengths and speeds are counted in.
pub const UNIT: i32 = 1000;

/// Two points closer than this (0.02 world units) count as the same point.
pub const DEAD_ZONE: i32 = 20;

/// The nearest value to `v` that an `i32` can hold.
pub open spec fn clamp(v: int) -> int {
    if v < i32::MIN {
        i32::MIN as int
    } else if v > i32::MAX {
        i32::MAX as int
    } else {
        v
    }
}

/// The quotient of `a` by a positive `b`, rounded toward zero.
pub open spec fn trunc_div(a: int, b: int) -> int
    recommends
        b > 0,
{
    if a >= 0 {
        a / b
    } else {
        -((-a) / b)
    }
}

/// `value` times `numer / denom`, rounded toward zero and clamped.
pub open spec fn spec_scale(value: int, numer: int, denom: int) -> int
    recommends
        denom > 0,
{
    clamp(trunc_div(value * numer, denom))
}

/// The point reached from `from` on the way to `to` after `numer` of `denom`
/// equal steps, rounded toward `from` and clamped.
pub open spec fn spec_lerp(from: int, to: int, numer: int, denom: int) -> int
    recommends
        denom > 0,
{
    clamp(from + trunc_div((to - from) * numer, denom))
}

/// A speed along the x axis for a character whose forward is `facing`
/// (1 toward positive x, -1 toward negative x), clamped.
pub open spec fn spec_directed(facing: int, speed: int) -> int {
    clamp(facing * speed)
}

/// Clamps a wide intermediate result back into an `i32`.
pub fn clamp_i64(v: i64) -> (c: i32)
    ensures
        c == clamp(v as int),
{
    if v < i32::MIN as i64 {
        i32::MIN
    } else if v > i32::MAX as i64 {
        i32::MAX
    } else {
        v as i32
    }
}

/// Turns a speed toward where the character faces.
pub fn directed(facing: i32, speed: i32) -> (along: i32)
    ensures
        along == spec_directed(facing as int, speed as int),
{
    assert(-0x4000_0000_0000_0000 <= facing * speed <= 0x4000_0000_0000_0000) by (nonlinear_arith)
        requires
            -0x8000_0000 <= facing <= 0x8000_0000,
            -0x8000_0000 <= speed <= 0x8000_0000,
    ;
    clamp_i64(facing as i64 * speed as i64)
}

/// Turns a speed against where the character faces.
pub fn back_directed(facing: i32, speed: i32) -> (along: i32)
    ensures
        along == spec_directed(-facing, speed as int),
{
    if facing == i32::MIN {
        assert(-(facing as int) * speed == 0x8000_0000 * speed);
        assert(-0x4000_0000_0000_0000 <= 0x8000_0000 * speed <= 0x4000_0000_0000_0000)
            by (nonlinear_arith)
            requires
                -0x8000_0000 <= speed <= 0x8000_0000,
        ;
        clamp_i64(0x8000_0000i64 * speed as i64)
    } else {
        directed(-facing, speed)
    }
}

/// Multiplies `value` by the fraction `numer / denom`.
pub fn scale(value: i32, numer: i16, denom: u8) -> (scaled: i32)
    requires
        denom > 0,
    ensures
        scaled == spec_scale(value as int, numer as int, denom as int),
{
    assert(-0x8000_0000_0000 <= value * numer <= 0x8000_0000_0000) by (nonlinear_arith)
        requires
            -0x8000_0000 <= value <= 0x8000_0000,
            -0x8000 <= numer <= 0x8000,
    ;
    let product: i64 = value as i64 * numer as i64;
    clamp_i64(product / denom as i64)
}

/// Moves `from` toward `to` by `numer / denom` of their distance.
pub fn lerp(from: i32, to: i32, numer: u8, denom: u8) -> (mid: i32)
    requires
        denom > 0,
    ensures
        mid == spec_lerp(from as int, to as int, numer as int, denom as int),
{
    let span: i64 = to as i64 - from as i64;
    assert(-0x100_0000_0000 <= span * numer <= 0x100_0000_0000) by (nonlinear_arith)
        requires
            -0x1_0000_0000 <= span <= 0x1_0000_0000,
            0 <= numer <= 0x100,
    ;
    let step: i64 = (span * numer as i64) / denom as i64;
    assert(-0x100_0000_0000 <= step <= 0x100_0000_0000) by (nonlinear_arith)
        requires
            -0x100_0000_0000 <= span * numer <= 0x100_0000_0000,
            denom > 0,
            step == trunc_div(span * numer, denom as int),
    ;
    clamp_i64(from as i64 + step)
}

/// A full step of an interpolation lands on its target exactly.
pub proof fn lemma_lerp_complete(from: int, to: int, denom: int)
    requires
        denom > 0,
        i32::MIN <= to <= i32::MAX,
    ensures
        spec_lerp(from, to, denom, denom) == to,
{
    let span = to - from;
    if span >= 0 {
        assert((span * denom) / denom == span) by (nonlinear_arith)
            requires
                denom > 0,
        ;
    } else {
        assert(-(span * denom) == (-span) * denom) by (nonlinear_arith);
        assert(((-span) * denom) / denom == -span) by (nonlinear_arith)
            requires
                denom > 0,
        ;
        assert(span * denom < 0) by (nonlinear_arith)
            requires
                span < 0,
                denom > 0,
        ;
    }
}

/// A point or a velocity in the plane, in thousandths of a world unit.
#[derive(Clone, Copy, Debug, PartialEq, Eq, Structural)]
pub struct Vec2 {
    pub x: i32,
    pub y: i32,
}

/// A position in the world; `z` only orders what is drawn.
#[derive(Clone, Copy, Debug, PartialEq, Eq, Structural)]
pub struct Vec3 {
    pub x: i32,
    pub y: i32,
    pub z: i32,
}

impl Vec3 {
    pub fn new(x: i32, y: i32, z: i32) -> (v: Vec3)
        ensures
            v == (Vec3 { x, y, z }),
    {
        Vec3 { x, y, z }
    }

    /// This position moved by `velocity` for one frame.
    pub open spec fn spec_moved(self, velocity: Vec2) -> Vec3 {
        Vec3 {
            x: clamp(self.x + velocity.x) as i32,
            y: clamp(self.y + velocity.y) as i32,
            z: self.z,
        }
    }

    /// Moves this position by `velocity` for one frame.
    pub fn moved(self, velocity: Vec2) -> (v: Vec3)
        ensures
            v == self.spec_moved(velocity),
    {
        Vec3 {
            x: clamp_i64(self.x as i64 + velocity.x as i64),
            y: clamp_i64(self.y as i64 + velocity.y as i64),
            z: self.z,
        }
    }
}

impl Vec2 {
    pub fn new(x: i32, y: i32) -> (v: Vec2)
        ensures
            v == (Vec2 { x, y }),
    {
        Vec2 { x, y }
    }

    pub open spec fn spec_zero() -> Vec2 {
        Vec2 { x: 0, y: 0 }
    }

    /// The velocity of something at rest.
    #[verifier::when_used_as_spec(spec_zero)]
    pub fn zero() -> (v: Vec2)
        ensures
            v == Vec2::spec_zero(),
    {
        Vec2 { x: 0, y: 0 }
    }

    /// Whether `self` lies more than the dead zone away from `target`.
    pub open spec fn is_far_from(self, target: Vec2) -> bool {
        let dx = self.x - target.x;
        let dy = self.y - target.y;
        dx * dx + dy * dy > DEAD_ZONE * DEAD_ZONE
    }

    /// The componentwise difference, clamped.
    pub open spec fn spec_minus(self, other: Vec2) -> Vec2 {
        Vec2 { x: clamp(self.x - other.x) as i32, y: clamp(self.y - other.y) as i32 }
    }

    /// What `custom_lerp` returns.
    pub open spec fn spec_custom_lerp(self, target: Vec2, numer: int, denom: int) -> Vec2
        recommends
            denom > 0,
    {
        if self.is_far_from(target) {
            Vec2 {
                x: spec_lerp(self.x as int, target.x as int, numer, denom) as i32,
                y: spec_lerp(self.y as int, target.y as int, numer, denom) as i32,
            }
        } else {
            target
        }
    }

    /// The componentwise difference, clamped.
    pub fn minus(self, other: Vec2) -> (difference: Vec2)
        ensures
            difference == self.spec_minus(other),
    {
        Vec2 {
            x: clamp_i64(self.x as i64 - other.x as i64),
            y: clamp_i64(self.y as i64 - other.y as i64),
        }
    }

    /// Tells whether `self` is outside the dead zone around `target`.
    pub fn far_from(&self, target: Vec2) -> (far: bool)
        ensures
            far == self.is_far_from(target),
    {
        let dx: i64 = self.x as i64 - target.x as i64;
        let dy: i64 = self.y as i64 - target.y as i64;
        let reach: i64 = DEAD_ZONE as i64;
        if dx > reach || dx < -reach || dy > reach || dy < -reach {
            assert(dx * dx + dy * dy > DEAD_ZONE * DEAD_ZONE) by (nonlinear_arith)
                requires
                    dx > 20 || dx < -20 || dy > 20 || dy < -20,
            ;
            true
        } else {
            assert(0 <= dx * dx <= 400 && 0 <= dy * dy <= 400) by (nonlinear_arith)
                requires
                    -20 <= dx <= 20,
                    -20 <= dy <= 20,
            ;
            dx * dx + dy * dy > reach * reach
        }
    }

    /// Eases `self` toward `target`: outside the dead zone it moves by
    /// `numer / denom` of the way, inside it snaps onto the target.
    pub fn custom_lerp(&self, target: Vec2, numer: u8, denom: u8) -> (eased: Vec2)
        requires
            denom > 0,
        ensures
            eased == self.spec_custom_lerp(target, numer as int, denom as int),
    {
        if self.far_from(target) {
            Vec2 { x: lerp(self.x, target.x, numer, denom), y: lerp(self.y, target.y, numer, denom) }
        } else {
            target
        }
    }
}

} // verus!
