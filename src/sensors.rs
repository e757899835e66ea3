use vstd::prelude::*;
use crate::layout::{Point3, sensor_offset};

verus! {

/// Direction vectors are unit vectors scaled by this factor.
pub const DIR_SCALE: i64 = 4096;
/// Largest coordinate, length or width (in micrometres) the sensor geometry takes.
pub const COORD_LIMIT: i64 = 4_294_967_296;

/// A placement in the ground plane: an origin in micrometres and a heading
/// given as a unit vector scaled by [`DIR_SCALE`].
#[derive(Debug, Clone, Copy, PartialEq, Eq, Structural)]
pub struct Frame {
    pub x: i64,
    pub y: i64,
    pub dir_x: i64,
    pub dir_y: i64,
}

/// The shape of one piece of track line, in its own frame.
#[derive(Debug, Clone, Copy, PartialEq, Eq, Structural)]
pub enum LineShape {
    /// A straight band starting at the frame's origin and running `length_um`
    /// along the frame's heading.
    Strip { length_um: i64 },
    /// A circular band of radius `radius_um` about the frame's origin, from the
    /// frame's heading counterclockwise to `end_dir` (in the frame's own
    /// coordinates, scaled like a heading; at most half a turn).
    Arc { radius_um: i64, end_dir_x: i64, end_dir_y: i64 },
}

/// One piece of the track's line: a shape, its width and where it lies.
#[derive(Debug, Clone, Copy, PartialEq, Eq, Structural)]
pub struct LinePiece {
    pub frame: Frame,
    pub shape: LineShape,
    pub width_um: i64,
}

pub open spec fn abs(v: int) -> int {
    if v < 0 {
        -v
    } else {
        v
    }
}

pub open spec fn bounded(v: int) -> bool {
    -COORD_LIMIT <= v <= COORD_LIMIT
}

pub open spec fn frame_ok(f: Frame) -> bool {
    &&& bounded(f.x as int)
    &&& bounded(f.y as int)
    &&& -DIR_SCALE <= f.dir_x <= DIR_SCALE
    &&& -DIR_SCALE <= f.dir_y <= DIR_SCALE
}

pub open spec fn piece_ok(p: LinePiece) -> bool {
    &&& frame_ok(p.frame)
    &&& 0 <= p.width_um <= COORD_LIMIT
    &&& match p.shape {
        LineShape::Strip { length_um } => 0 <= length_um <= COORD_LIMIT,
        LineShape::Arc { radius_um, end_dir_x, end_dir_y } => 0 <= radius_um <= COORD_LIMIT
            && -DIR_SCALE <= end_dir_x <= DIR_SCALE && -DIR_SCALE <= end_dir_y <= DIR_SCALE,
    }
}

/// A point in the ground plane with coordinates scaled by [`DIR_SCALE`].
pub struct ScaledPoint {
    pub x: i128,
    pub y: i128,
}

pub open spec fn scaled_ok(q: ScaledPoint) -> bool {
    &&& -4 * COORD_LIMIT * DIR_SCALE <= q.x <= 4 * COORD_LIMIT * DIR_SCALE
    &&& -4 * COORD_LIMIT * DIR_SCALE <= q.y <= 4 * COORD_LIMIT * DIR_SCALE
}

/// Where the mount at `m` (`x` to the right, `y` forward, in the robot's frame)
/// lies when the robot stands at `robot`, scaled by [`DIR_SCALE`].
pub open spec fn mount_world_spec(robot: Frame, m: Point3) -> (int, int) {
    (
        robot.x * DIR_SCALE + m.y * robot.dir_x + m.x * robot.dir_y,
        robot.y * DIR_SCALE + m.y * robot.dir_y - m.x * robot.dir_x,
    )
}

/// Coordinates of the scaled point `(qx, qy)` in the frame `f`: along its heading
/// and to its left, both scaled by `DIR_SCALE²`.
pub open spec fn local_along(f: Frame, qx: int, qy: int) -> int {
    (qx - f.x * DIR_SCALE) * f.dir_x + (qy - f.y * DIR_SCALE) * f.dir_y
}

pub open spec fn local_left(f: Frame, qx: int, qy: int) -> int {
    (qy - f.y * DIR_SCALE) * f.dir_x - (qx - f.x * DIR_SCALE) * f.dir_y
}

pub open spec fn scale2() -> int {
    DIR_SCALE * DIR_SCALE
}

/// Whether the scaled point `(qx, qy)` lies on the line piece `p`.
pub open spec fn on_piece(p: LinePiece, qx: int, qy: int) -> bool {
    let u = local_along(p.frame, qx, qy);
    let v = local_left(p.frame, qx, qy);
    match p.shape {
        LineShape::Strip { length_um } => 0 <= u <= length_um * scale2() && 2 * abs(v) <= p.width_um * scale2(),
        LineShape::Arc { radius_um, end_dir_x, end_dir_y } => {
            let inner = if 2 * radius_um >= p.width_um {
                2 * radius_um - p.width_um
            } else {
                0
            };
            let outer = 2 * radius_um + p.width_um;
            let d2 = 4 * (u * u + v * v);
            &&& inner * inner * scale2() * scale2() <= d2
            &&& d2 <= outer * outer * scale2() * scale2()
            &&& v >= 0
            &&& u * end_dir_y - v * end_dir_x >= 0
        },
    }
}

/// Whether the scaled point lies on any piece of the line.
pub open spec fn on_line(pieces: Seq<LinePiece>, qx: int, qy: int) -> bool {
    exists|j: int| 0 <= j < pieces.len() && on_piece(#[trigger] pieces[j], qx, qy)
}

/// Whether `f` is within the range the sensor geometry takes.
pub fn frame_fits(f: &Frame) -> (r: bool)
    ensures
        r == frame_ok(*f),
{
    -COORD_LIMIT <= f.x && f.x <= COORD_LIMIT && -COORD_LIMIT <= f.y && f.y <= COORD_LIMIT
        && -DIR_SCALE <= f.dir_x && f.dir_x <= DIR_SCALE && -DIR_SCALE <= f.dir_y && f.dir_y <= DIR_SCALE
}

/// Whether the ground-plane coordinates of `m` are within range.
pub fn point_fits(m: &Point3) -> (r: bool)
    ensures
        r == (bounded(m.x as int) && bounded(m.y as int)),
{
    -COORD_LIMIT <= m.x && m.x <= COORD_LIMIT && -COORD_LIMIT <= m.y && m.y <= COORD_LIMIT
}

/// Whether `p` is within the range the sensor geometry takes.
pub fn piece_fits(p: &LinePiece) -> (r: bool)
    ensures
        r == piece_ok(*p),
{
    let shape_fits = match p.shape {
        LineShape::Strip { length_um } => 0 <= length_um && length_um <= COORD_LIMIT,
        LineShape::Arc { radius_um, end_dir_x, end_dir_y } => 0 <= radius_um && radius_um <= COORD_LIMIT
            && -DIR_SCALE <= end_dir_x && end_dir_x <= DIR_SCALE && -DIR_SCALE <= end_dir_y && end_dir_y <= DIR_SCALE,
    };
    frame_fits(&p.frame) && 0 <= p.width_um && p.width_um <= COORD_LIMIT && shape_fits
}

/// World position of a sensor mount, scaled by [`DIR_SCALE`].
pub fn mount_world(robot: &Frame, m: &Point3) -> (r: ScaledPoint)
    requires
        frame_ok(*robot),
        bounded(m.x as int),
        bounded(m.y as int),
    ensures
        (r.x as int, r.y as int) == mount_world_spec(*robot, *m),
        scaled_ok(r),
{
    let rx = robot.x as i128;
    let ry = robot.y as i128;
    let cx = robot.dir_x as i128;
    let cy = robot.dir_y as i128;
    let mx = m.x as i128;
    let my = m.y as i128;
    let s = DIR_SCALE as i128;
    assert(-COORD_LIMIT * DIR_SCALE <= rx * s <= COORD_LIMIT * DIR_SCALE) by (nonlinear_arith)
        requires -COORD_LIMIT <= rx <= COORD_LIMIT, s == DIR_SCALE;
    assert(-COORD_LIMIT * DIR_SCALE <= ry * s <= COORD_LIMIT * DIR_SCALE) by (nonlinear_arith)
        requires -COORD_LIMIT <= ry <= COORD_LIMIT, s == DIR_SCALE;
    assert(-COORD_LIMIT * DIR_SCALE <= my * cx <= COORD_LIMIT * DIR_SCALE) by (nonlinear_arith)
        requires -COORD_LIMIT <= my <= COORD_LIMIT, -DIR_SCALE <= cx <= DIR_SCALE;
    assert(-COORD_LIMIT * DIR_SCALE <= mx * cy <= COORD_LIMIT * DIR_SCALE) by (nonlinear_arith)
        requires -COORD_LIMIT <= mx <= COORD_LIMIT, -DIR_SCALE <= cy <= DIR_SCALE;
    assert(-COORD_LIMIT * DIR_SCALE <= my * cy <= COORD_LIMIT * DIR_SCALE) by (nonlinear_arith)
        requires -COORD_LIMIT <= my <= COORD_LIMIT, -DIR_SCALE <= cy <= DIR_SCALE;
    assert(-COORD_LIMIT * DIR_SCALE <= mx * cx <= COORD_LIMIT * DIR_SCALE) by (nonlinear_arith)
        requires -COORD_LIMIT <= mx <= COORD_LIMIT, -DIR_SCALE <= cx <= DIR_SCALE;
    ScaledPoint { x: rx * s + my * cx + mx * cy, y: ry * s + my * cy - mx * cx }
}

pub(crate) proof fn lemma_product_bound(a: int, b: int, la: int, lb: int)
    requires
        -la <= a <= la,
        -lb <= b <= lb,
    ensures
        -(la * lb) <= a * b <= la * lb,
{
    assert(-(la * lb) <= a * b <= la * lb) by (nonlinear_arith)
        requires -la <= a <= la, -lb <= b <= lb;
}

/// Bound on the local coordinates of a point within the limits.
pub const LOCAL_LIMIT: i128 = 720_575_940_379_279_360;

/// Coordinates of the scaled point `q` in the frame `f`: distance along the
/// frame's heading and to its left, scaled by `DIR_SCALE²`.
pub fn point_to_new_origin(q: &ScaledPoint, f: &Frame) -> (r: (i128, i128))
    requires
        frame_ok(*f),
        scaled_ok(*q),
    ensures
        r.0 as int == local_along(*f, q.x as int, q.y as int),
        r.1 as int == local_left(*f, q.x as int, q.y as int),
        -LOCAL_LIMIT <= r.0 <= LOCAL_LIMIT,
        -LOCAL_LIMIT <= r.1 <= LOCAL_LIMIT,
{
    let s = DIR_SCALE as i128;
    let ox = f.x as i128 * s;
    let oy = f.y as i128 * s;
    proof {
        lemma_product_bound(f.x as int, DIR_SCALE as int, COORD_LIMIT as int, DIR_SCALE as int);
        lemma_product_bound(f.y as int, DIR_SCALE as int, COORD_LIMIT as int, DIR_SCALE as int);
    }
    let dx = q.x - ox;
    let dy = q.y - oy;
    let cx = f.dir_x as i128;
    let cy = f.dir_y as i128;
    let lim: i128 = 5 * (COORD_LIMIT as i128) * s;
    proof {
        lemma_product_bound(dx as int, cx as int, lim as int, DIR_SCALE as int);
        lemma_product_bound(dy as int, cy as int, lim as int, DIR_SCALE as int);
        lemma_product_bound(dx as int, cy as int, lim as int, DIR_SCALE as int);
        lemma_product_bound(dy as int, cx as int, lim as int, DIR_SCALE as int);
    }
    (dx * cx + dy * cy, dy * cx - dx * cy)
}

/// Whether the scaled point `q` lies on the line piece `p`.
pub fn point_on_piece(p: &LinePiece, q: &ScaledPoint) -> (r: bool)
    requires
        piece_ok(*p),
        scaled_ok(*q),
    ensures
        r == on_piece(*p, q.x as int, q.y as int),
{
    let (u, v) = point_to_new_origin(q, &p.frame);
    let s = DIR_SCALE as i128;
    let s2 = s * s;
    let w = p.width_um as i128;
    let ulim: i128 = LOCAL_LIMIT;
    match p.shape {
        LineShape::Strip { length_um } => {
            proof {
                lemma_product_bound(length_um as int, s2 as int, COORD_LIMIT as int, s2 as int);
                lemma_product_bound(w as int, s2 as int, COORD_LIMIT as int, s2 as int);
            }
            let av = if v < 0 { -v } else { v };
            0 <= u && u <= (length_um as i128) * s2 && 2 * av <= w * s2
        },
        LineShape::Arc { radius_um, end_dir_x, end_dir_y } => {
            let r2 = 2 * (radius_um as i128);
            let inner = if r2 >= w { r2 - w } else { 0 };
            let outer = r2 + w;
            proof {
                lemma_product_bound(u as int, u as int, ulim as int, ulim as int);
                lemma_product_bound(v as int, v as int, ulim as int, ulim as int);
                lemma_product_bound(inner as int, inner as int, 3 * COORD_LIMIT as int, 3 * COORD_LIMIT as int);
                lemma_product_bound(outer as int, outer as int, 3 * COORD_LIMIT as int, 3 * COORD_LIMIT as int);
                lemma_product_bound((inner * inner) as int, s2 as int, 9 * COORD_LIMIT * COORD_LIMIT, s2 as int);
                lemma_product_bound((outer * outer) as int, s2 as int, 9 * COORD_LIMIT * COORD_LIMIT, s2 as int);
                lemma_product_bound((inner * inner * s2) as int, s2 as int, 9 * COORD_LIMIT * COORD_LIMIT * s2, s2 as int);
                lemma_product_bound((outer * outer * s2) as int, s2 as int, 9 * COORD_LIMIT * COORD_LIMIT * s2, s2 as int);
                lemma_product_bound(u as int, end_dir_y as int, ulim as int, DIR_SCALE as int);
                lemma_product_bound(v as int, end_dir_x as int, ulim as int, DIR_SCALE as int);
            }
            assert(ulim == 720575940379279360);
            assert(ulim * ulim == 519229685853482762853049632922009600);
            let d2 = 4 * (u * u + v * v);
            inner * inner * s2 * s2 <= d2 && d2 <= outer * outer * s2 * s2 && v >= 0
                && u * (end_dir_y as i128) - v * (end_dir_x as i128) >= 0
        },
    }
}

/// Reads every sensor: entry `i` says whether mount `i` of the robot standing at
/// `robot` lies on some piece of the line. Readings keep the mounts' order.
pub fn read_sensors(robot: &Frame, mounts: &Vec<Point3>, pieces: &Vec<LinePiece>) -> (r: Vec<bool>)
    requires
        frame_ok(*robot),
        forall|i: int| 0 <= i < mounts@.len() ==> bounded(#[trigger] mounts@[i].x as int) && bounded(mounts@[i].y as int),
        forall|j: int| 0 <= j < pieces@.len() ==> piece_ok(#[trigger] pieces@[j]),
    ensures
        r@.len() == mounts@.len(),
        forall|i: int| 0 <= i < mounts@.len() ==> #[trigger] r@[i] == ({
            let q = mount_world_spec(*robot, mounts@[i]);
            on_line(pieces@, q.0, q.1)
        }),
{
    let mut out: Vec<bool> = Vec::new();
    let mut i: usize = 0;
    while i < mounts.len()
        invariant
            i <= mounts@.len(),
            out@.len() == i,
            frame_ok(*robot),
            forall|k: int| 0 <= k < mounts@.len() ==> bounded(#[trigger] mounts@[k].x as int) && bounded(mounts@[k].y as int),
            forall|j: int| 0 <= j < pieces@.len() ==> piece_ok(#[trigger] pieces@[j]),
            forall|k: int| 0 <= k < i ==> #[trigger] out@[k] == ({
                let q = mount_world_spec(*robot, mounts@[k]);
                on_line(pieces@, q.0, q.1)
            }),
        decreases mounts@.len() - i,
    {
        let q = mount_world(robot, &mounts[i]);
        let mut found = false;
        let mut j: usize = 0;
        while j < pieces.len()
            invariant
                j <= pieces@.len(),
                scaled_ok(q),
                forall|k: int| 0 <= k < pieces@.len() ==> piece_ok(#[trigger] pieces@[k]),
                found == exists|k: int| 0 <= k < j && on_piece(#[trigger] pieces@[k], q.x as int, q.y as int),
            decreases pieces@.len() - j,
        {
            if point_on_piece(&pieces[j], &q) {
                found = true;
            }
            j = j + 1;
        }
        out.push(found);
        i = i + 1;
    }
    out
}

/// How far the robot's origin lies along the line piece's heading from its
/// start, and to its left, both scaled by `DIR_SCALE`.
pub open spec fn robot_along(p: LinePiece, robot: Frame) -> int {
    (robot.x - p.frame.x) * p.frame.dir_x + (robot.y - p.frame.y) * p.frame.dir_y
}

pub open spec fn robot_left(p: LinePiece, robot: Frame) -> int {
    (robot.y - p.frame.y) * p.frame.dir_x - (robot.x - p.frame.x) * p.frame.dir_y
}

proof fn lemma_parallel_mount(p: LinePiece, robot: Frame, m: Point3, length_um: i64)
    requires
        robot.dir_x == p.frame.dir_x,
        robot.dir_y == p.frame.dir_y,
        p.frame.dir_x * p.frame.dir_x + p.frame.dir_y * p.frame.dir_y == DIR_SCALE * DIR_SCALE,
        p.shape == (LineShape::Strip { length_um }),
    ensures
        ({
            let q = mount_world_spec(robot, m);
            on_piece(p, q.0, q.1) == (0 <= robot_along(p, robot) + m.y * DIR_SCALE <= length_um * DIR_SCALE
                && 2 * abs(robot_left(p, robot) - m.x * DIR_SCALE) <= p.width_um * DIR_SCALE)
        }),
{
    let q = mount_world_spec(robot, m);
    let (rx, ry, mx, my, ox, oy) = (robot.x as int, robot.y as int, m.x as int, m.y as int, p.frame.x as int, p.frame.y as int);
    let (c, s) = (p.frame.dir_x as int, p.frame.dir_y as int);
    let a = robot_along(p, robot) + my * 4096;
    let b = robot_left(p, robot) - mx * 4096;
    assert(local_along(p.frame, q.0, q.1) == 4096 * a) by (nonlinear_arith)
        requires
            q.0 == rx * 4096 + my * c + mx * s,
            q.1 == ry * 4096 + my * s - mx * c,
            local_along(p.frame, q.0, q.1) == (q.0 - ox * 4096) * c + (q.1 - oy * 4096) * s,
            a == (rx - ox) * c + (ry - oy) * s + my * 4096,
            c * c + s * s == 4096 * 4096,
    ;
    assert(local_left(p.frame, q.0, q.1) == 4096 * b) by (nonlinear_arith)
        requires
            q.0 == rx * 4096 + my * c + mx * s,
            q.1 == ry * 4096 + my * s - mx * c,
            local_left(p.frame, q.0, q.1) == (q.1 - oy * 4096) * c - (q.0 - ox * 4096) * s,
            b == (ry - oy) * c - (rx - ox) * s - mx * 4096,
            c * c + s * s == 4096 * 4096,
    ;
    assert(abs(4096 * b) == 4096 * abs(b));
    assert(scale2() == 4096 * 4096);
    let l = length_um as int;
    let w = p.width_um as int;
    assert((0 <= 4096 * a <= l * (4096 * 4096)) == (0 <= a <= l * 4096));
    assert((2 * (4096 * abs(b)) <= w * (4096 * 4096)) == (2 * abs(b) <= w * 4096));
    assert(a == robot_along(p, robot) + m.y * DIR_SCALE);
    assert(b == robot_left(p, robot) - m.x * DIR_SCALE);
}

proof fn lemma_offset_bound(k: int, count: int, half_spacing: int)
    requires
        0 <= k < count,
        half_spacing >= 0,
    ensures
        abs((2 * k - (count - 1)) * half_spacing) <= (count - 1) * half_spacing,
{
    let t = 2 * k - (count - 1);
    assert(-(count - 1) <= t <= count - 1);
    if t >= 0 {
        assert(t * half_spacing <= (count - 1) * half_spacing) by (nonlinear_arith)
            requires
                0 <= t <= count - 1,
                half_spacing >= 0,
        ;
        assert(t * half_spacing >= 0) by (nonlinear_arith)
            requires
                t >= 0,
                half_spacing >= 0,
        ;
    } else {
        assert(-(t * half_spacing) <= (count - 1) * half_spacing) by (nonlinear_arith)
            requires
                -(count - 1) <= t < 0,
                half_spacing >= 0,
        ;
        assert(t * half_spacing <= 0) by (nonlinear_arith)
            requires
                t < 0,
                half_spacing >= 0,
        ;
    }
}

/// A row of sensors `spacing_um` apart, on a robot heading the same way as a
/// straight piece of line (an exact unit heading, any direction), every sensor
/// within the piece's length: when the robot is centred on the line and the
/// row fits inside its width every sensor reads `true`; when the robot is
/// shifted sideways so far that the whole row is clear of the line every
/// sensor reads `false`.
pub proof fn lemma_sensor_row_over_strip(
    p: LinePiece,
    robot: Frame,
    mounts: Seq<Point3>,
    spacing_um: int,
    length_um: i64,
)
    requires
        robot.dir_x == p.frame.dir_x,
        robot.dir_y == p.frame.dir_y,
        p.frame.dir_x * p.frame.dir_x + p.frame.dir_y * p.frame.dir_y == DIR_SCALE * DIR_SCALE,
        p.shape == (LineShape::Strip { length_um }),
        spacing_um >= 0,
        forall|k: int|
            0 <= k < mounts.len() ==> (#[trigger] mounts[k]).x == sensor_offset(k, mounts.len() as int, spacing_um),
        forall|k: int|
            0 <= k < mounts.len() ==> 0 <= robot_along(p, robot) + (#[trigger] mounts[k]).y * DIR_SCALE
                <= length_um * DIR_SCALE,
    ensures
        robot_left(p, robot) == 0 && (mounts.len() - 1) * spacing_um <= p.width_um ==> forall|k: int|
            0 <= k < mounts.len() ==> {
                let q = #[trigger] mount_world_spec(robot, mounts[k]);
                on_line(seq![p], q.0, q.1)
            },
        2 * abs(robot_left(p, robot)) > (p.width_um + (mounts.len() - 1) * spacing_um) * DIR_SCALE ==> forall|k: int|
            0 <= k < mounts.len() ==> {
                let q = #[trigger] mount_world_spec(robot, mounts[k]);
                !on_line(seq![p], q.0, q.1)
            },
{
    let n = mounts.len() as int;
    if n > 0 {
        let h = spacing_um / 2;
        let l0 = robot_left(p, robot);
        assert(2 * ((n - 1) * h) <= (n - 1) * spacing_um) by (nonlinear_arith)
            requires
                h == spacing_um / 2,
                spacing_um >= 0,
                n >= 1,
        ;
        assert forall|k: int| 0 <= k < n implies {
            let q = #[trigger] mount_world_spec(robot, mounts[k]);
            &&& (l0 == 0 && (n - 1) * spacing_um <= p.width_um ==> on_line(seq![p], q.0, q.1))
            &&& (2 * abs(l0) > (p.width_um + (n - 1) * spacing_um) * DIR_SCALE ==> !on_line(seq![p], q.0, q.1))
        } by {
            let q = mount_world_spec(robot, mounts[k]);
            lemma_parallel_mount(p, robot, mounts[k], length_um);
            lemma_offset_bound(k, n, h);
            let s1 = seq![p];
            assert(s1[0] == p);
            if on_piece(p, q.0, q.1) {
                assert(on_line(s1, q.0, q.1));
            } else {
                assert forall|j: int| 0 <= j < s1.len() implies !on_piece(#[trigger] s1[j], q.0, q.1) by {
                    assert(j == 0);
                }
            }
        }
    }
}

} // verus!
