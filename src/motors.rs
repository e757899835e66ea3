use vstd::prelude::*;
use crate::side::Side;

verus! {

/// Normalised power at full throttle, forward; `-MAX_POWER` is full reverse.
pub const MAX_POWER: i32 = 1000;
/// Wheel torque at full power through a 1:1 gear, in micro-newton-metres.
pub const MAX_TORQUE_UNM: i64 = 100_000;

/// A wheel torque in micro-newton-metres, held exactly as `numer / denom`.
#[derive(Debug, Clone, Copy, PartialEq, Eq, Structural)]
pub struct WheelTorque {
    pub numer: i64,
    pub denom: u64,
}

/// The torques the motors currently apply to the left and right wheel.
#[derive(Debug, Clone, Copy, PartialEq, Eq, Structural)]
pub struct MotorsTorque {
    pub left: WheelTorque,
    pub right: WheelTorque,
}

/// `p` limited to `[-MAX_POWER, MAX_POWER]`.
pub open spec fn clamp_power_spec(p: int) -> int {
    if p > MAX_POWER {
        MAX_POWER as int
    } else if p < -MAX_POWER {
        -MAX_POWER
    } else {
        p
    }
}

/// `torque = clamp(power) / MAX_POWER * MAX_TORQUE * num / den`, as a fraction.
pub open spec fn wheel_torque_spec(power: int, num: int, den: int) -> WheelTorque {
    WheelTorque {
        numer: (clamp_power_spec(power) * MAX_TORQUE_UNM * num) as i64,
        denom: (MAX_POWER * den) as u64,
    }
}

/// The two fractions denote the same torque.
pub open spec fn same_torque(a: WheelTorque, b: WheelTorque) -> bool {
    a.numer * b.denom == b.numer * a.denom
}

pub open spec fn zero_torque() -> WheelTorque {
    WheelTorque { numer: 0, denom: 1 }
}

/// Out-of-range power is clamped, as a motor driver would, not refused.
pub fn clamp_power(p: i32) -> (r: i32)
    ensures
        r as int == clamp_power_spec(p as int),
{
    if p > MAX_POWER {
        MAX_POWER
    } else if p < -MAX_POWER {
        -MAX_POWER
    } else {
        p
    }
}

/// The torque a motor driven at `power` delivers to its wheel through a
/// `num / den` gear.
pub fn wheel_torque(power: i32, num: u32, den: u32) -> (r: WheelTorque)
    requires
        den > 0,
    ensures
        r == wheel_torque_spec(power as int, num as int, den as int),
        r.denom > 0,
{
    let p: i64 = clamp_power(power) as i64;
    assert(-100_000_000 <= p * MAX_TORQUE_UNM <= 100_000_000);
    assert(-100_000_000 * 4_294_967_295 <= (p * MAX_TORQUE_UNM) * (num as i64) <= 100_000_000 * 4_294_967_295)
        by (nonlinear_arith)
        requires
            -100_000_000 <= p * MAX_TORQUE_UNM <= 100_000_000,
            0 <= num <= 4_294_967_295,
    ;
    assert(1000 * (den as u64) <= 1000 * 4_294_967_295) by (nonlinear_arith)
        requires
            den <= 4_294_967_295,
    ;
    let numer: i64 = p * MAX_TORQUE_UNM * (num as i64);
    let denom: u64 = (MAX_POWER as u64) * (den as u64);
    WheelTorque { numer, denom }
}

/// Through a `num / den` gear a motor delivers exactly `num / den` times the
/// torque it delivers through a 1:1 gear at the same power.
pub proof fn lemma_torque_scales_with_gear_ratio(power: int, num: int, den: int)
    requires
        -2147483648 <= power <= 2147483647,
        0 <= num <= u32::MAX,
        0 < den <= u32::MAX,
    ensures
        wheel_torque_spec(power, num, den).numer * wheel_torque_spec(power, 1, 1).denom * den
            == wheel_torque_spec(power, 1, 1).numer * num * wheel_torque_spec(power, num, den).denom,
{
    let c = clamp_power_spec(power);
    assert(-1000 <= c <= 1000);
    assert(-100_000_000 * 4_294_967_295 <= c * MAX_TORQUE_UNM * num <= 100_000_000 * 4_294_967_295)
        by (nonlinear_arith)
        requires
            -1000 <= c <= 1000,
            0 <= num <= 4_294_967_295,
    ;
    assert(0 < MAX_POWER * den <= 1000 * 4_294_967_295) by (nonlinear_arith)
        requires
            0 < den <= 4_294_967_295,
    ;
    assert((c * MAX_TORQUE_UNM * num) * (MAX_POWER * 1) * den == (c * MAX_TORQUE_UNM * 1) * num * (MAX_POWER * den))
        by (nonlinear_arith);
}

impl MotorsTorque {
    /// Both motors idle.
    pub fn new() -> (r: MotorsTorque)
        ensures
            r.left == zero_torque(),
            r.right == zero_torque(),
    {
        MotorsTorque { left: WheelTorque { numer: 0, denom: 1 }, right: WheelTorque { numer: 0, denom: 1 } }
    }

    /// The torque on the wheel of `side`.
    pub fn torque(&self, side: Side) -> (r: WheelTorque)
        ensures
            r == (match side {
                Side::Left => self.left,
                Side::Right => self.right,
            }),
    {
        match side {
            Side::Left => self.left,
            Side::Right => self.right,
        }
    }

    /// Sets both motors' power; the torques hold until the next call.
    pub fn set_motors_power(&mut self, left: i32, right: i32, num: u32, den: u32)
        requires
            den > 0,
        ensures
            final(self).left == wheel_torque_spec(left as int, num as int, den as int),
            final(self).right == wheel_torque_spec(right as int, num as int, den as int),
    {
        self.left = wheel_torque(left, num, den);
        self.right = wheel_torque(right, num, den);
    }
}

} // verus!
