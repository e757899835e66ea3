use robot_sim::sensors::{read_sensors, Frame, LinePiece, LineShape, DIR_SCALE};
use robot_sim::side::Side;
use robot_sim::track::{
    build_track, directions_fit, end, line_pieces, start, SegmentTransform, Track, TrackId, TrackSegment,
};
use robot_sim::layout::sensor_mounts;

fn table() -> Vec<(i64, i64)> {
    (0..360)
        .map(|d| {
            let a = (d as f64).to_radians();
            ((a.cos() * DIR_SCALE as f64).round() as i64, (a.sin() * DIR_SCALE as f64).round() as i64)
        })
        .collect()
}

fn track(segments: Vec<TrackSegment>) -> Track {
    Track::new(5000, 5000, SegmentTransform::new(0, 0, 0), segments)
}

#[test]
fn straight_then_left_quarter_turn() {
    let t = track(vec![start(), TrackSegment::straight(1000), TrackSegment::ninety_deg_turn(500, Side::Left), end()]);
    assert!(t.fits());
    let p = line_pieces(&t, &table(), 15_000);
    assert_eq!(p.len(), 2);
    assert_eq!(
        p[0],
        LinePiece {
            frame: Frame { x: 0, y: 0, dir_x: DIR_SCALE, dir_y: 0 },
            shape: LineShape::Strip { length_um: 1_000_000 },
            width_um: 15_000,
        }
    );
    // The turn's centre is 500 mm to the left of the straight's end, and its
    // arc starts at the point below the centre.
    assert_eq!(
        p[1],
        LinePiece {
            frame: Frame { x: 1_000_000, y: 500_000, dir_x: 0, dir_y: -DIR_SCALE },
            shape: LineShape::Arc { radius_um: 500_000, end_dir_x: 0, end_dir_y: DIR_SCALE },
            width_um: 15_000,
        }
    );
}

#[test]
fn right_turn_then_straight_goes_south() {
    let t = track(vec![start(), TrackSegment::ninety_deg_turn(500, Side::Right), TrackSegment::straight(200), end()]);
    let p = line_pieces(&t, &table(), 15_000);
    assert_eq!(p.len(), 2);
    assert_eq!(p[0].frame, Frame { x: 0, y: -500_000, dir_x: DIR_SCALE, dir_y: 0 });
    assert_eq!(p[1].frame, Frame { x: 500_000, y: -500_000, dir_x: 0, dir_y: -DIR_SCALE });
}

#[test]
fn sensors_follow_the_laid_out_track() {
    let t = track(vec![start(), TrackSegment::straight(1000), TrackSegment::ninety_deg_turn(500, Side::Left), end()]);
    let pieces = line_pieces(&t, &table(), 15_000);
    let mounts = sensor_mounts(2, 10, 0, 4);
    // Heading north on the arc's rightmost point, (1500 mm, 500 mm).
    let on_arc = Frame { x: 1_500_000, y: 500_000, dir_x: 0, dir_y: DIR_SCALE };
    assert_eq!(read_sensors(&on_arc, &mounts, &pieces), vec![true, true]);
    let on_straight = Frame { x: 400_000, y: 0, dir_x: DIR_SCALE, dir_y: 0 };
    assert_eq!(read_sensors(&on_straight, &mounts, &pieces), vec![true, true]);
    let off = Frame { x: 400_000, y: 100_000, dir_x: DIR_SCALE, dir_y: 0 };
    assert_eq!(read_sensors(&off, &mounts, &pieces), vec![false, false]);
}

#[test]
fn simple_track_lays_out_five_pieces() {
    let t = build_track(TrackId::Simple);
    assert!(t.fits());
    let p = line_pieces(&t, &table(), 15_000);
    assert_eq!(p.len(), 5);
    assert_eq!(p[0].frame, Frame { x: 500_000, y: -2_300_000, dir_x: DIR_SCALE, dir_y: 0 });
    assert_eq!(p[0].shape, LineShape::Strip { length_um: 2_000_000 });
    assert_eq!(p[1].shape, LineShape::Arc { radius_um: 500_000, end_dir_x: 0, end_dir_y: DIR_SCALE });
}

#[test]
fn malformed_tracks_do_not_fit() {
    assert!(!track(vec![start()]).fits());
    assert!(!track(vec![TrackSegment::straight(10), end()]).fits());
    assert!(!track(vec![start(), TrackSegment::straight(0), end()]).fits());
    assert!(!track(vec![start(), TrackSegment::circle_turn(100, 270, Side::Left), end()]).fits());
    assert!(!track(vec![start(), start(), end()]).fits());
    assert!(track(vec![start(), end()]).fits());
    let mut far = track(vec![start(), end()]);
    far.origin = SegmentTransform::new(2_000_000, 0, 0);
    assert!(!far.fits());
}

#[test]
fn direction_tables() {
    assert!(directions_fit(&table()));
    assert!(!directions_fit(&table()[..359].to_vec()));
    let mut bad = table();
    bad[7] = (DIR_SCALE + 1, 0);
    assert!(!directions_fit(&bad));
}
