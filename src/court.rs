//! Court geometry: the playing surface and its painted lines, in inches on
//! the ground plane, centred on the net.

use vstd::prelude::*;

verus! {

/// Inches in a foot.
pub const INCHES_PER_FOOT: u32 = 12;

/// A point of the court, in inches: `x` along the net, `y` up, `z` across it.
#[derive(Clone, Copy, Debug, PartialEq, Eq, Structural)]
pub struct CourtPoint {
    pub x: i64,
    pub y: i64,
    pub z: i64,
}

/// A closed outline on the court, corner after corner.
#[derive(Clone, Debug)]
pub struct WorldPolygon {
    pub corners: Vec<CourtPoint>,
}

/// Separate straight lines on the court, each from one end to the other.
#[derive(Clone, Debug)]
pub struct WorldPolyline {
    pub segments: Vec<(CourtPoint, CourtPoint)>,
}

/// Distances that set out a court, in inches.
#[derive(Clone, Copy, Debug, PartialEq, Eq, Structural)]
pub struct CourtDimensions {
    pub net_to_baseline: u32,
    pub net_to_service_line: u32,
    pub center_to_sideline: u32,
    pub center_to_alley: u32,
}

/// The point on the ground at `x` along the net and `z` across it.
pub open spec fn ground(x: int, z: int) -> CourtPoint {
    CourtPoint { x: x as i64, y: 0, z: z as i64 }
}

/// The surface: the doubles court, near corners first.
pub open spec fn spec_surface(d: CourtDimensions) -> Seq<CourtPoint> {
    let b = d.net_to_baseline as int;
    let a = d.center_to_alley as int;
    seq![ground(-a, b), ground(a, b), ground(a, -b), ground(-a, -b)]
}

/// The painted lines: net line, near and far baselines, near service line,
/// right singles sideline, right and left doubles sidelines, left singles
/// sideline, far service line and centre service line.
pub open spec fn spec_boundaries(d: CourtDimensions) -> Seq<(CourtPoint, CourtPoint)> {
    let b = d.net_to_baseline as int;
    let v = d.net_to_service_line as int;
    let s = d.center_to_sideline as int;
    let a = d.center_to_alley as int;
    seq![
        (ground(-a, 0), ground(a, 0)),
        (ground(-a, b), ground(a, b)),
        (ground(-a, -b), ground(a, -b)),
        (ground(-s, v), ground(s, v)),
        (ground(s, -b), ground(s, b)),
        (ground(a, -b), ground(a, b)),
        (ground(-a, -b), ground(-a, b)),
        (ground(-s, -b), ground(-s, b)),
        (ground(-s, -v), ground(s, -v)),
        (ground(0, -v), ground(0, v)),
    ]
}

fn ground_point(x: i64, z: i64) -> (r: CourtPoint)
    ensures
        r == ground(x as int, z as int),
{
    CourtPoint { x, y: 0, z }
}

impl Default for CourtDimensions {
    /// A regulation court: 39 feet from net to baseline, 21 to the service
    /// line, 13.5 from the centre to the singles sideline and 18 to the
    /// doubles sideline.
    fn default() -> (r: Self)
        ensures
            r == (CourtDimensions {
                net_to_baseline: 468,
                net_to_service_line: 252,
                center_to_sideline: 162,
                center_to_alley: 216,
            }),
    {
        CourtDimensions {
            net_to_baseline: 39 * INCHES_PER_FOOT,
            net_to_service_line: 21 * INCHES_PER_FOOT,
            center_to_sideline: 27 * INCHES_PER_FOOT / 2,
            center_to_alley: 18 * INCHES_PER_FOOT,
        }
    }
}

impl CourtDimensions {
    /// Outline of the playing surface.
    pub fn court_surface_path(&self) -> (r: WorldPolygon)
        ensures
            r.corners@ == spec_surface(*self),
    {
        let b = self.net_to_baseline as i64;
        let a = self.center_to_alley as i64;
        let (na, nb) = (-a, -b);
        let corners = vec![
            ground_point(na, b),
            ground_point(a, b),
            ground_point(a, nb),
            ground_point(na, nb),
        ];
        assert(corners@ =~= spec_surface(*self));
        WorldPolygon { corners }
    }

    /// The painted lines of the court.
    pub fn court_boundaries_path(&self) -> (r: WorldPolyline)
        ensures
            r.segments@ == spec_boundaries(*self),
    {
        let b = self.net_to_baseline as i64;
        let v = self.net_to_service_line as i64;
        let s = self.center_to_sideline as i64;
        let a = self.center_to_alley as i64;
        let (na, nb, nv, ns) = (-a, -b, -v, -s);
        let segments = vec![
            (ground_point(na, 0), ground_point(a, 0)),
            (ground_point(na, b), ground_point(a, b)),
            (ground_point(na, nb), ground_point(a, nb)),
            (ground_point(ns, v), ground_point(s, v)),
            (ground_point(s, nb), ground_point(s, b)),
            (ground_point(a, nb), ground_point(a, b)),
            (ground_point(na, nb), ground_point(na, b)),
            (ground_point(ns, nb), ground_point(ns, b)),
            (ground_point(ns, nv), ground_point(s, nv)),
            (ground_point(0, nv), ground_point(0, v)),
        ];
        assert(segments@ =~= spec_boundaries(*self));
        WorldPolyline { segments }
    }
}

} // verus!
