use robot_sim::config::{Color, Configuration, ConfigurationError, LengthField};
use robot_sim::layout::{build_layout, sensor_mounts, GeometryError, Point3, SENSOR_COUNT};
use robot_sim::side::Side;

fn liner() -> Configuration {
    Configuration {
        name: "Liner".to_string(),
        color_main: Color { r: 255, g: 0, b: 0 },
        color_secondary: Color { r: 0, g: 255, b: 0 },
        width_axle: 200,
        length_front: 300,
        length_back: 20,
        clearing_back: 3,
        wheel_diameter: 15,
        gear_ratio_num: 1,
        gear_ratio_den: 20,
        front_sensors_spacing: 4,
        front_sensors_height: 4,
    }
}

#[test]
fn valid_configuration_is_accepted() {
    assert_eq!(liner().validate(), Ok(()));
}

#[test]
fn zero_length_is_refused_with_its_field() {
    let mut c = liner();
    c.length_back = 0;
    assert_eq!(c.validate(), Err(ConfigurationError::NonPositiveLength(LengthField::LengthBack)));
    c.width_axle = 0;
    assert_eq!(c.validate(), Err(ConfigurationError::NonPositiveLength(LengthField::WidthAxle)));
}

#[test]
fn zero_sensor_height_is_refused() {
    let mut c = liner();
    c.front_sensors_height = 0;
    assert_eq!(c.validate(), Err(ConfigurationError::NonPositiveLength(LengthField::SensorsHeight)));
}

#[test]
fn zero_gear_ratio_is_refused() {
    let mut c = liner();
    c.gear_ratio_den = 0;
    assert_eq!(c.validate(), Err(ConfigurationError::ZeroGearRatio));
    let mut c = liner();
    c.gear_ratio_num = 0;
    assert_eq!(c.validate(), Err(ConfigurationError::ZeroGearRatio));
}

#[test]
fn unreduced_gear_ratio_is_refused() {
    let mut c = liner();
    c.gear_ratio_num = 2;
    c.gear_ratio_den = 20;
    assert_eq!(c.validate(), Err(ConfigurationError::UnreducedGearRatio));
    c.gear_ratio_num = 3;
    assert_eq!(c.validate(), Ok(()));
}

#[test]
fn length_error_comes_before_gear_error() {
    let mut c = liner();
    c.wheel_diameter = 0;
    c.gear_ratio_den = 0;
    assert_eq!(c.validate(), Err(ConfigurationError::NonPositiveLength(LengthField::WheelDiameter)));
}

#[test]
fn layout_of_liner() {
    let l = build_layout(&liner()).unwrap();
    assert_eq!(l.body_center, Point3 { x: 0, y: 140_000, z: 23_000 });
    assert_eq!(l.body_half_extents, Point3 { x: 45_000, y: 116_000, z: 10_000 });
    assert_eq!(l.front_bumper, Point3 { x: 0, y: 277_000, z: 5_000 });
    assert_eq!(l.back_bumper, Point3 { x: 0, y: -20_000, z: 8_000 });
    assert_eq!(l.left_wheel, Point3 { x: -107_500, y: 0, z: 7_500 });
    assert_eq!(l.right_wheel, Point3 { x: 107_500, y: 0, z: 7_500 });
    assert_eq!(l.left_axle, Point3 { x: -1, y: 0, z: 0 });
    assert_eq!(l.right_axle, Point3 { x: 1, y: 0, z: 0 });
    assert_eq!(l.wheel_radius, 7_500);
    assert_eq!(l.sensors.len(), SENSOR_COUNT);
    assert_eq!(l.sensors[0], Point3 { x: -30_000, y: 300_000, z: 4_000 });
    assert_eq!(l.sensors[15], Point3 { x: 30_000, y: 300_000, z: 4_000 });
    assert_eq!(l.body_anchor(l.left_wheel), Point3 { x: -107_500, y: -140_000, z: -15_500 });
}

#[test]
fn wheel_as_wide_as_axle_is_a_geometry_error() {
    let mut c = liner();
    c.wheel_diameter = 200;
    assert_eq!(build_layout(&c).unwrap_err(), GeometryError::WheelNotNarrowerThanAxle);
    c.wheel_diameter = 0;
    assert_eq!(build_layout(&c).unwrap_err(), GeometryError::NonPositiveDimension);
}

#[test]
fn sensor_mounts_are_centred_left_to_right() {
    let m = sensor_mounts(2, 10, 50, 4);
    assert_eq!(m, vec![Point3 { x: -5_000, y: 50_000, z: 4_000 }, Point3 { x: 5_000, y: 50_000, z: 4_000 }]);
    let m = sensor_mounts(3, 7, 0, 1);
    assert_eq!(m[0].x, -7_000);
    assert_eq!(m[1].x, 0);
    assert_eq!(m[2].x, 7_000);
    assert!(sensor_mounts(0, 7, 0, 1).is_empty());
}

#[test]
fn side_signs() {
    assert_eq!(Side::Left.sign(), 1);
    assert_eq!(Side::Right.sign(), -1);
}
