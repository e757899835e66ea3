use vstd::prelude::*;

verus! {

/// An RGB colour, one byte per channel.
#[derive(Debug, Clone, Copy, PartialEq, Eq, Structural)]
pub struct Color {
    pub r: u8,
    pub g: u8,
    pub b: u8,
}

/// The robot record a guest returns from `setup()`.
///
/// Lengths are in millimetres; the gear ratio is `gear_ratio_num / gear_ratio_den`.
#[derive(Debug, Clone)]
pub struct Configuration {
    pub name: String,
    pub color_main: Color,
    pub color_secondary: Color,
    /// Axle width, wheel to wheel.
    pub width_axle: u32,
    /// Distance from the wheel axle to the front of the robot.
    pub length_front: u32,
    /// Distance from the wheel axle to the back of the robot.
    pub length_back: u32,
    /// Ground clearance at the back of the robot.
    pub clearing_back: u32,
    pub wheel_diameter: u32,
    pub gear_ratio_num: u32,
    pub gear_ratio_den: u32,
    /// Lateral distance between two neighbouring line sensors.
    pub front_sensors_spacing: u32,
    /// Height of the line sensors above the ground.
    pub front_sensors_height: u32,
}

/// The length fields of a [`Configuration`], in declaration order.
#[derive(Debug, Clone, Copy, PartialEq, Eq, Structural)]
pub enum LengthField {
    WidthAxle,
    LengthFront,
    LengthBack,
    ClearingBack,
    WheelDiameter,
    SensorsSpacing,
    SensorsHeight,
}

/// Why a configuration was refused before the run.
#[derive(Debug, Clone, Copy, PartialEq, Eq, Structural)]
pub enum ConfigurationError {
    /// The named length is zero.
    NonPositiveLength(LengthField),
    /// The gear ratio has a zero numerator or denominator.
    ZeroGearRatio,
    /// The gear ratio is not in lowest terms.
    UnreducedGearRatio,
}

/// Greatest common divisor (Euclid).
pub open spec fn gcd(a: nat, b: nat) -> nat
    decreases b,
{
    if b == 0 {
        a
    } else {
        gcd(b, a % b)
    }
}

/// The first zero length of `c`, in field order.
pub open spec fn first_zero_length(c: Configuration) -> Option<LengthField> {
    if c.width_axle == 0 {
        Some(LengthField::WidthAxle)
    } else if c.length_front == 0 {
        Some(LengthField::LengthFront)
    } else if c.length_back == 0 {
        Some(LengthField::LengthBack)
    } else if c.clearing_back == 0 {
        Some(LengthField::ClearingBack)
    } else if c.wheel_diameter == 0 {
        Some(LengthField::WheelDiameter)
    } else if c.front_sensors_spacing == 0 {
        Some(LengthField::SensorsSpacing)
    } else if c.front_sensors_height == 0 {
        Some(LengthField::SensorsHeight)
    } else {
        None
    }
}

/// The error a configuration is refused with, or `None` when it is valid:
/// lengths are checked first, then the gear ratio.
pub open spec fn configuration_error(c: Configuration) -> Option<ConfigurationError> {
    match first_zero_length(c) {
        Some(f) => Some(ConfigurationError::NonPositiveLength(f)),
        None => if c.gear_ratio_num == 0 || c.gear_ratio_den == 0 {
            Some(ConfigurationError::ZeroGearRatio)
        } else if gcd(c.gear_ratio_num as nat, c.gear_ratio_den as nat) != 1 {
            Some(ConfigurationError::UnreducedGearRatio)
        } else {
            None
        },
    }
}

/// Every length is positive and the gear ratio is a reduced positive fraction.
pub open spec fn valid_configuration(c: Configuration) -> bool {
    configuration_error(c).is_none()
}

fn gcd_u32(a: u32, b: u32) -> (r: u32)
    ensures
        r as nat == gcd(a as nat, b as nat),
{
    let mut x: u32 = a;
    let mut y: u32 = b;
    while y != 0
        invariant
            gcd(x as nat, y as nat) == gcd(a as nat, b as nat),
        decreases y,
    {
        let t: u32 = x % y;
        x = y;
        y = t;
    }
    x
}

fn first_zero_length_exec(c: &Configuration) -> (r: Option<LengthField>)
    ensures
        r == first_zero_length(*c),
{
    if c.width_axle == 0 {
        Some(LengthField::WidthAxle)
    } else if c.length_front == 0 {
        Some(LengthField::LengthFront)
    } else if c.length_back == 0 {
        Some(LengthField::LengthBack)
    } else if c.clearing_back == 0 {
        Some(LengthField::ClearingBack)
    } else if c.wheel_diameter == 0 {
        Some(LengthField::WheelDiameter)
    } else if c.front_sensors_spacing == 0 {
        Some(LengthField::SensorsSpacing)
    } else if c.front_sensors_height == 0 {
        Some(LengthField::SensorsHeight)
    } else {
        None
    }
}

impl Configuration {
    /// Checks the configuration's domain: `Ok` exactly when it is valid, else the
    /// first error in the order of [`configuration_error`].
    pub fn validate(&self) -> (r: Result<(), ConfigurationError>)
        ensures
            match configuration_error(*self) {
                None => r is Ok,
                Some(e) => r == Err::<(), ConfigurationError>(e),
            },
    {
        match first_zero_length_exec(self) {
            Some(f) => Err(ConfigurationError::NonPositiveLength(f)),
            None => {
                if self.gear_ratio_num == 0 || self.gear_ratio_den == 0 {
                    Err(ConfigurationError::ZeroGearRatio)
                } else if gcd_u32(self.gear_ratio_num, self.gear_ratio_den) != 1 {
                    Err(ConfigurationError::UnreducedGearRatio)
                } else {
                    Ok(())
                }
            },
        }
    }
}

} // verus!
