use vstd::prelude::*;
use crate::config::{Configuration, first_zero_length};
use crate::side::Side;

verus! {

/// Micrometres in a millimetre.
pub const UM_PER_MM: i64 = 1000;
/// Shortest chassis, whatever the front and back lengths.
pub const BODY_LENGTH_MIN_UM: i64 = 40_000;
pub const BODY_WIDTH_UM: i64 = 90_000;
pub const BODY_HEIGHT_UM: i64 = 20_000;
pub const BUMPER_DIAMETER_UM: i64 = 10_000;
pub const BUMPER_WIDTH_UM: i64 = 45_000;
pub const SENSOR_DIAMETER_UM: i64 = 1_000;
/// Number of line sensors mounted across the robot's front.
pub const SENSOR_COUNT: usize = 16;
/// Largest number of sensors a layout may hold.
pub const MAX_SENSORS: usize = 1024;

/// A point or vector in the robot's start frame, in micrometres:
/// `x` lateral (right positive), `y` forward, `z` up.
#[derive(Debug, Clone, Copy, PartialEq, Eq, Structural)]
pub struct Point3 {
    pub x: i64,
    pub y: i64,
    pub z: i64,
}

/// Why a robot body could not be built from a configuration.
#[derive(Debug, Clone, Copy, PartialEq, Eq, Structural)]
pub enum GeometryError {
    /// Some configured length is zero.
    NonPositiveDimension,
    /// The wheels are at least as wide as the axle, so they would overlap.
    WheelNotNarrowerThanAxle,
}

/// Placement and size of every collider of the robot, derived from a
/// [`Configuration`]: a chassis box, two capsule bumpers, two wheels on
/// revolute joints and a row of point sensors on fixed joints.
#[derive(Debug, Clone)]
pub struct BotLayout {
    pub body_center: Point3,
    pub body_half_extents: Point3,
    pub front_bumper: Point3,
    pub back_bumper: Point3,
    pub bumper_half_length: i64,
    pub bumper_radius: i64,
    pub left_wheel: Point3,
    pub right_wheel: Point3,
    /// Axle direction of the left and right wheel (unit vectors).
    pub left_axle: Point3,
    pub right_axle: Point3,
    pub wheel_radius: i64,
    /// Sensor mounts, ordered from left to right.
    pub sensors: Vec<Point3>,
    pub sensor_radius: i64,
}

pub open spec fn mm(v: u32) -> int {
    v as int * UM_PER_MM as int
}

pub open spec fn point(x: int, y: int, z: int) -> Point3 {
    Point3 { x: x as i64, y: y as i64, z: z as i64 }
}

/// The error that building a body from `c` yields, if any.
pub open spec fn geometry_error(c: Configuration) -> Option<GeometryError> {
    if first_zero_length(c).is_some() {
        Some(GeometryError::NonPositiveDimension)
    } else if c.wheel_diameter >= c.width_axle {
        Some(GeometryError::WheelNotNarrowerThanAxle)
    } else {
        None
    }
}

/// Lateral offset of sensor `k` out of `count`, centred on the robot's axis:
/// `(k - (count - 1) / 2) * spacing`, written over half a spacing so that it stays
/// an integer.
pub open spec fn sensor_offset(k: int, count: int, spacing_um: int) -> int {
    (2 * k - (count - 1)) * (spacing_um / 2)
}

pub open spec fn body_center_spec(c: Configuration) -> Point3 {
    point(
        0,
        (mm(c.length_front) - mm(c.length_back)) / 2,
        mm(c.clearing_back) + BODY_HEIGHT_UM / 2 + BUMPER_DIAMETER_UM,
    )
}

/// Position of the wheel on `side`: half the axle width plus half a wheel out
/// from the centre line, its axle at wheel-radius height.
pub open spec fn wheel_center_spec(c: Configuration, side: Side) -> Point3 {
    point(
        -side.sign_spec() * ((mm(c.width_axle) + mm(c.wheel_diameter)) / 2),
        0,
        mm(c.wheel_diameter) / 2,
    )
}

pub open spec fn sensor_mount_spec(c: Configuration, k: int, count: int) -> Point3 {
    point(
        sensor_offset(k, count, mm(c.front_sensors_spacing)),
        mm(c.length_front),
        mm(c.front_sensors_height),
    )
}

/// The layout built from a configuration that has no geometry error.
pub open spec fn layout_matches(l: BotLayout, c: Configuration) -> bool {
    &&& l.body_center == body_center_spec(c)
    &&& l.body_half_extents == point(
        BODY_WIDTH_UM / 2,
        (BODY_LENGTH_MIN_UM + 3 * (mm(c.length_front) + mm(c.length_back)) / 5) / 2,
        BODY_HEIGHT_UM / 2,
    )
    &&& l.front_bumper == point(
        0,
        mm(c.length_front) - (BUMPER_WIDTH_UM + SENSOR_DIAMETER_UM) / 2,
        BUMPER_DIAMETER_UM / 2,
    )
    &&& l.back_bumper == point(0, -mm(c.length_back), BUMPER_DIAMETER_UM / 2 + mm(c.clearing_back))
    &&& l.bumper_half_length == BUMPER_WIDTH_UM / 2
    &&& l.bumper_radius == BUMPER_DIAMETER_UM / 2
    &&& l.left_wheel == wheel_center_spec(c, Side::Left)
    &&& l.right_wheel == wheel_center_spec(c, Side::Right)
    &&& l.left_axle == point(-1, 0, 0)
    &&& l.right_axle == point(1, 0, 0)
    &&& l.wheel_radius == mm(c.wheel_diameter) / 2
    &&& l.sensors@.len() == SENSOR_COUNT
    &&& forall|k: int|
        0 <= k < SENSOR_COUNT ==> #[trigger] l.sensors@[k] == sensor_mount_spec(c, k, SENSOR_COUNT as int)
    &&& l.sensor_radius == SENSOR_DIAMETER_UM / 2
}

/// `p` relative to `origin`.
pub open spec fn relative_spec(p: Point3, origin: Point3) -> Point3 {
    point(p.x - origin.x, p.y - origin.y, p.z - origin.z)
}

fn mm_exec(v: u32) -> (r: i64)
    ensures
        r as int == mm(v),
{
    v as i64 * UM_PER_MM
}

/// Mount points of `count` line sensors spaced `spacing_mm` apart across the
/// front, at `length_front_mm` ahead of the axle and `height_mm` above ground,
/// ordered from left to right.
pub fn sensor_mounts(count: usize, spacing_mm: u32, length_front_mm: u32, height_mm: u32) -> (r: Vec<Point3>)
    requires
        count <= MAX_SENSORS,
    ensures
        r@.len() == count,
        forall|k: int|
            0 <= k < count ==> #[trigger] r@[k] == point(
                sensor_offset(k, count as int, mm(spacing_mm)),
                mm(length_front_mm),
                mm(height_mm),
            ),
{
    let half_spacing: i64 = spacing_mm as i64 * (UM_PER_MM / 2);
    let y: i64 = mm_exec(length_front_mm);
    let z: i64 = mm_exec(height_mm);
    let mut out: Vec<Point3> = Vec::new();
    let mut k: usize = 0;
    while k < count
        invariant
            k <= count <= MAX_SENSORS,
            half_spacing as int == mm(spacing_mm) / 2,
            0 <= half_spacing <= 2_147_483_647_500,
            y as int == mm(length_front_mm),
            z as int == mm(height_mm),
            out@.len() == k,
            forall|j: int|
                0 <= j < k ==> #[trigger] out@[j] == point(
                    sensor_offset(j, count as int, mm(spacing_mm)),
                    mm(length_front_mm),
                    mm(height_mm),
                ),
        decreases count - k,
    {
        let steps: i64 = 2 * (k as i64) - (count as i64 - 1);
        assert(-2048 <= steps <= 2048);
        assert(-2048 * 2_147_483_647_500 <= steps * half_spacing <= 2048 * 2_147_483_647_500) by (nonlinear_arith)
            requires
                -2048 <= steps <= 2048,
                0 <= half_spacing <= 2_147_483_647_500,
        ;
        let x: i64 = steps * half_spacing;
        out.push(Point3 { x, y, z });
        k = k + 1;
    }
    out
}

/// Builds the robot's collider layout, or says why the configuration does not
/// make a consistent body.
pub fn build_layout(c: &Configuration) -> (r: Result<BotLayout, GeometryError>)
    ensures
        match geometry_error(*c) {
            None => r matches Ok(l) && layout_matches(l, *c),
            Some(e) => r == Err::<BotLayout, GeometryError>(e),
        },
{
    if c.width_axle == 0 || c.length_front == 0 || c.length_back == 0 || c.clearing_back == 0
        || c.wheel_diameter == 0 || c.front_sensors_spacing == 0 || c.front_sensors_height == 0 {
        return Err(GeometryError::NonPositiveDimension);
    }
    if c.wheel_diameter >= c.width_axle {
        return Err(GeometryError::WheelNotNarrowerThanAxle);
    }
    let front: i64 = mm_exec(c.length_front);
    let back: i64 = mm_exec(c.length_back);
    let clearing: i64 = mm_exec(c.clearing_back);
    let axle: i64 = mm_exec(c.width_axle);
    let wheel_d: i64 = mm_exec(c.wheel_diameter);
    let wheel_offset: i64 = (axle + wheel_d) / 2;
    let left_sign: i64 = Side::Left.sign();
    let right_sign: i64 = Side::Right.sign();
    let sensors = sensor_mounts(SENSOR_COUNT, c.front_sensors_spacing, c.length_front, c.front_sensors_height);
    let layout = BotLayout {
        body_center: Point3 {
            x: 0,
            y: (front - back) / 2,
            z: clearing + BODY_HEIGHT_UM / 2 + BUMPER_DIAMETER_UM,
        },
        body_half_extents: Point3 {
            x: BODY_WIDTH_UM / 2,
            y: (BODY_LENGTH_MIN_UM + 3 * (front + back) / 5) / 2,
            z: BODY_HEIGHT_UM / 2,
        },
        front_bumper: Point3 {
            x: 0,
            y: front - (BUMPER_WIDTH_UM + SENSOR_DIAMETER_UM) / 2,
            z: BUMPER_DIAMETER_UM / 2,
        },
        back_bumper: Point3 { x: 0, y: -back, z: BUMPER_DIAMETER_UM / 2 + clearing },
        bumper_half_length: BUMPER_WIDTH_UM / 2,
        bumper_radius: BUMPER_DIAMETER_UM / 2,
        left_wheel: Point3 { x: -left_sign * wheel_offset, y: 0, z: wheel_d / 2 },
        right_wheel: Point3 { x: -right_sign * wheel_offset, y: 0, z: wheel_d / 2 },
        left_axle: Point3 { x: -1, y: 0, z: 0 },
        right_axle: Point3 { x: 1, y: 0, z: 0 },
        wheel_radius: wheel_d / 2,
        sensors,
        sensor_radius: SENSOR_DIAMETER_UM / 2,
    };
    Ok(layout)
}

impl BotLayout {
    /// `p` as an anchor in the chassis frame: its offset from the chassis centre.
    pub fn body_anchor(&self, p: Point3) -> (r: Point3)
        requires
            i64::MIN <= p.x - self.body_center.x <= i64::MAX,
            i64::MIN <= p.y - self.body_center.y <= i64::MAX,
            i64::MIN <= p.z - self.body_center.z <= i64::MAX,
        ensures
            r == relative_spec(p, self.body_center),
    {
        Point3 {
            x: p.x - self.body_center.x,
            y: p.y - self.body_center.y,
            z: p.z - self.body_center.z,
        }
    }
}

} // verus!
