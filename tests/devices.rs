use robot_sim::features::BotFeatures;
use robot_sim::layout::{sensor_mounts, Point3};
use robot_sim::motors::{clamp_power, wheel_torque, MotorsTorque, WheelTorque, MAX_POWER};
use robot_sim::sensors::{
    frame_fits, piece_fits, point_fits, point_to_new_origin, read_sensors, Frame, LinePiece, LineShape, ScaledPoint,
    COORD_LIMIT, DIR_SCALE,
};
use robot_sim::side::Side;
use robot_sim::track::{build_track, end, start, SegmentTransform, TrackId, TrackSegment};

fn torque_value(t: WheelTorque) -> (i128, i128) {
    (t.numer as i128, t.denom as i128)
}

#[test]
fn power_is_clamped_not_refused() {
    assert_eq!(clamp_power(5000), MAX_POWER);
    assert_eq!(clamp_power(-5000), -MAX_POWER);
    assert_eq!(clamp_power(-300), -300);
    assert_eq!(wheel_torque(5000, 1, 1), wheel_torque(1000, 1, 1));
}

#[test]
fn torque_formula() {
    assert_eq!(wheel_torque(1000, 1, 1), WheelTorque { numer: 100_000_000, denom: 1000 });
    assert_eq!(wheel_torque(-500, 3, 7), WheelTorque { numer: -150_000_000, denom: 7000 });
}

#[test]
fn gear_ratio_one_twentieth_gives_one_twentieth_torque() {
    let (n20, d20) = torque_value(wheel_torque(1000, 1, 20));
    let (n1, d1) = torque_value(wheel_torque(1000, 1, 1));
    assert_eq!(n20 * 20 * d1, n1 * d20);
    assert_eq!(n20 / d20, 5_000);
    assert_eq!(n1 / d1, 100_000);
}

#[test]
fn motors_hold_their_torque_per_side() {
    let mut m = MotorsTorque::new();
    assert_eq!(m.torque(Side::Left).numer, 0);
    m.set_motors_power(1000, -1000, 1, 20);
    assert_eq!(m.torque(Side::Left), wheel_torque(1000, 1, 20));
    assert_eq!(m.torque(Side::Right), wheel_torque(-1000, 1, 20));
}

fn east_strip(width_um: i64) -> Vec<LinePiece> {
    vec![LinePiece {
        frame: Frame { x: 0, y: 0, dir_x: DIR_SCALE, dir_y: 0 },
        shape: LineShape::Strip { length_um: 1_000_000 },
        width_um,
    }]
}

#[test]
fn two_sensors_centred_on_line_read_true() {
    let mounts = sensor_mounts(2, 10, 50, 4);
    let robot = Frame { x: 100_000, y: 0, dir_x: DIR_SCALE, dir_y: 0 };
    assert_eq!(read_sensors(&robot, &mounts, &east_strip(15_000)), vec![true, true]);
}

#[test]
fn two_sensors_shifted_off_line_read_false() {
    let mounts = sensor_mounts(2, 10, 50, 4);
    let robot = Frame { x: 100_000, y: 20_000, dir_x: DIR_SCALE, dir_y: 0 };
    assert_eq!(read_sensors(&robot, &mounts, &east_strip(15_000)), vec![false, false]);
}

#[test]
fn sensor_row_partly_over_line() {
    let mounts = sensor_mounts(3, 10, 50, 4);
    let robot = Frame { x: 100_000, y: 10_000, dir_x: DIR_SCALE, dir_y: 0 };
    // Mounts sit at lateral offsets -10, 0, 10 mm to the right of the robot,
    // so at 20, 10 and 0 mm left of the line's centre.
    assert_eq!(read_sensors(&robot, &mounts, &east_strip(15_000)), vec![false, false, true]);
}

#[test]
fn sensors_beyond_strip_end_read_false() {
    let mounts = sensor_mounts(2, 10, 50, 4);
    let robot = Frame { x: 2_000_000, y: 0, dir_x: DIR_SCALE, dir_y: 0 };
    assert_eq!(read_sensors(&robot, &mounts, &east_strip(15_000)), vec![false, false]);
}

#[test]
fn sensors_on_arc() {
    // Quarter circle of radius 100 mm about the origin, from east to north.
    let arc = vec![LinePiece {
        frame: Frame { x: 0, y: 0, dir_x: DIR_SCALE, dir_y: 0 },
        shape: LineShape::Arc { radius_um: 100_000, end_dir_x: 0, end_dir_y: DIR_SCALE },
        width_um: 15_000,
    }];
    let mounts = sensor_mounts(1, 10, 0, 4);
    let on = Frame { x: 70_711, y: 70_711, dir_x: DIR_SCALE, dir_y: 0 };
    let wrong_quadrant = Frame { x: -70_711, y: 70_711, dir_x: DIR_SCALE, dir_y: 0 };
    let inside = Frame { x: 50_000, y: 50_000, dir_x: DIR_SCALE, dir_y: 0 };
    assert_eq!(read_sensors(&on, &mounts, &arc), vec![true]);
    assert_eq!(read_sensors(&wrong_quadrant, &mounts, &arc), vec![false]);
    assert_eq!(read_sensors(&inside, &mounts, &arc), vec![false]);
}

#[test]
fn any_piece_counts() {
    let mut pieces = east_strip(15_000);
    pieces.push(LinePiece {
        frame: Frame { x: 0, y: 40_000, dir_x: DIR_SCALE, dir_y: 0 },
        shape: LineShape::Strip { length_um: 1_000_000 },
        width_um: 15_000,
    });
    let mounts = sensor_mounts(1, 10, 50, 4);
    let robot = Frame { x: 100_000, y: 40_000, dir_x: DIR_SCALE, dir_y: 0 };
    assert_eq!(read_sensors(&robot, &mounts, &pieces), vec![true]);
}

#[test]
fn simple_track_layout() {
    let t = build_track(TrackId::Simple);
    assert_eq!(t.size_x_mm, 5000);
    assert_eq!(t.size_y_mm, 6500);
    assert_eq!(t.origin, SegmentTransform::new(500, -2300, 0));
    assert_eq!(t.segments.len(), 7);
    assert_eq!(t.segments[0], start());
    assert_eq!(t.segments[1], TrackSegment::straight(2000));
    assert_eq!(t.segments[2], TrackSegment::ninety_deg_turn(500, Side::Right));
    assert_eq!(t.segments[3], TrackSegment::circle_turn(1000, 120, Side::Left));
    assert_eq!(t.segments[5], TrackSegment::Turn { radius_mm: 2000, angle_deg: 60, side: Side::Right });
    assert_eq!(t.segments[6], end());
}

#[test]
fn local_coordinates_of_a_point() {
    // Frame at (1 mm, 2 mm) heading north: a point 3 mm further north and
    // 1 mm east lies 3 mm ahead and 1 mm to the right.
    let f = Frame { x: 1_000, y: 2_000, dir_x: 0, dir_y: DIR_SCALE };
    let s = DIR_SCALE as i128;
    let q = ScaledPoint { x: 2_000 * s, y: 5_000 * s };
    assert_eq!(point_to_new_origin(&q, &f), (3_000 * s * s, -1_000 * s * s));
}

#[test]
fn range_checks() {
    assert!(frame_fits(&Frame { x: 0, y: 0, dir_x: DIR_SCALE, dir_y: 0 }));
    assert!(!frame_fits(&Frame { x: COORD_LIMIT + 1, y: 0, dir_x: DIR_SCALE, dir_y: 0 }));
    assert!(!frame_fits(&Frame { x: 0, y: 0, dir_x: DIR_SCALE + 1, dir_y: 0 }));
    assert!(point_fits(&Point3 { x: -COORD_LIMIT, y: COORD_LIMIT, z: i64::MAX }));
    assert!(!point_fits(&Point3 { x: 0, y: -COORD_LIMIT - 1, z: 0 }));
    assert!(piece_fits(&east_strip(15_000)[0]));
    let mut bad = east_strip(15_000)[0];
    bad.width_um = -1;
    assert!(!piece_fits(&bad));
}

#[test]
fn bot_features() {
    assert!(BotFeatures::Physics.has_physics());
    assert!(!BotFeatures::Physics.has_visualization());
    assert!(!BotFeatures::Visualization.has_physics());
    assert!(BotFeatures::Visualization.has_visualization());
    assert!(BotFeatures::PhysicsAndVisualization.has_physics());
    assert!(BotFeatures::PhysicsAndVisualization.has_visualization());
}
