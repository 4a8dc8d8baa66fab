use vstd::prelude::*;

use crate::coord::{coord_eq, coords_equal, Coord};
use crate::errors::ErrorKind;

verus! {

/// The model of the geometry engine's coordinate sequence: an ordered,
/// index-addressed sequence of two-dimensional coordinates whose length is
/// fixed at creation. The unverified adapter copies a finished sequence into
/// the engine one slot at a time.
pub struct CoordSeq {
    pts: Vec<Coord>,
}

impl View for CoordSeq {
    type V = Seq<Coord>;

    closed spec fn view(&self) -> Seq<Coord> {
        self.pts@
    }
}

impl CoordSeq {
    /// Allocates a sequence of exactly `len` slots, each holding the
    /// positive-zero coordinate until it is assigned.
    pub fn with_len(len: usize) -> (r: CoordSeq)
        ensures
            r@.len() == len,
            forall|i: int| 0 <= i < len ==> r@[i] == (Coord { x: 0u64, y: 0u64 }),
    {
        let mut pts: Vec<Coord> = Vec::new();
        let mut i: usize = 0;
        while i < len
            invariant
                i <= len,
                pts@.len() == i,
                forall|j: int| 0 <= j < i ==> pts@[j] == (Coord { x: 0u64, y: 0u64 }),
            decreases len - i,
        {
            pts.push(Coord { x: 0u64, y: 0u64 });
            i = i + 1;
        }
        CoordSeq { pts }
    }

    /// Assigns the slot at `index`. The length declared at creation is a
    /// hard bound: a write past it is rejected, never applied.
    pub fn set_coord(&mut self, index: usize, c: Coord) -> (r: Result<(), ErrorKind>)
        ensures
            r is Ok <==> index < old(self)@.len(),
            r is Ok ==> final(self)@ == old(self)@.update(index as int, c),
            r matches Err(e) ==> final(self)@ == old(self)@
                && (e matches ErrorKind::SequenceWrite { index: i } && i == index),
    {
        if index < self.pts.len() {
            self.pts.set(index, c);
            Ok(())
        } else {
            Err(ErrorKind::SequenceWrite { index })
        }
    }

    /// The declared length of the sequence.
    pub fn len(&self) -> (r: usize)
        ensures
            r == self@.len(),
    {
        self.pts.len()
    }

    /// Reads the slot at `index`.
    pub fn get(&self, index: usize) -> (r: Coord)
        requires
            index < self@.len(),
        ensures
            r == self@[index as int],
    {
        self.pts[index]
    }
}

/// Builds a coordinate sequence of exactly the input's length, assigning
/// every index. Each per-index write is checked against the declared bound
/// as the engine demands, and since the bound is the input's own length the
/// build always succeeds.
pub fn build_sequence(coords: &Vec<Coord>) -> (r: Result<CoordSeq, ErrorKind>)
    ensures
        r matches Ok(s) && s@ == coords@,
{
    let n = coords.len();
    let mut s = CoordSeq::with_len(n);
    let mut i: usize = 0;
    while i < n
        invariant
            n == coords@.len(),
            i <= n,
            s@.len() == n,
            forall|j: int| 0 <= j < i ==> s@[j] == coords@[j],
        decreases n - i,
    {
        match s.set_coord(i, coords[i]) {
            Ok(()) => {}
            Err(e) => {
                return Err(e);
            }
        }
        i = i + 1;
    }
    proof {
        assert(s@ =~= coords@);
    }
    Ok(s)
}

/// A polygon as the application holds it: one exterior ring and any number
/// of interior (hole) rings, none yet required to be closed.
pub struct PolygonValue {
    /// The outer boundary.
    pub exterior: Vec<Coord>,
    /// The holes.
    pub interiors: Vec<Vec<Coord>>,
}

/// A vector geometry value as the application holds it, before it is
/// prepared for the geometry engine.
pub enum GeometryValue {
    /// A single position.
    Point(Coord),
    /// An ordered path.
    LineString(Vec<Coord>),
    /// One exterior ring with holes.
    Polygon(PolygonValue),
    /// A collection of polygons.
    MultiPolygon(Vec<PolygonValue>),
}

/// A polygon in the ring/coordinate-sequence form the geometry engine
/// consumes: every ring closed and non-degenerate.
pub struct PreparedPolygon {
    /// The repaired outer boundary.
    pub exterior: CoordSeq,
    /// The repaired holes.
    pub interiors: Vec<CoordSeq>,
}

/// A geometry in the form the geometry engine consumes.
pub enum PreparedGeometry {
    /// A one-slot sequence.
    Point(CoordSeq),
    /// The path's coordinates, unchanged.
    LineString(CoordSeq),
    /// A polygon with every ring repaired.
    Polygon(PreparedPolygon),
    /// The member polygons, each repaired independently.
    MultiPolygon(Vec<PreparedPolygon>),
}

/// A ring the engine can accept: legitimately empty, or long enough that
/// closure repair can make a real ring of it. One or two points can never
/// be repaired into three distinct edges, even by closing.
pub open spec fn ring_admissible(ps: Seq<Coord>) -> bool {
    ps.len() == 0 || ps.len() >= 3
}

/// Whether the ring's last point returns to its first, under the
/// application's coordinate equality.
pub open spec fn ring_is_closed(ps: Seq<Coord>) -> bool {
    ps.len() > 0 && coord_eq(ps[0], ps[ps.len() - 1])
}

/// Whether closure repair must append a copy of the first point: the ring is
/// open, or it lists exactly three points — a closed three-point ring is
/// only a doubled-back segment of two distinct points, so it too must be
/// re-closed to gain a third distinct edge.
pub open spec fn ring_needs_closing(ps: Seq<Coord>) -> bool {
    ps.len() > 0 && (!ring_is_closed(ps) || ps.len() == 3)
}

/// The ring after closure repair.
pub open spec fn repaired_ring(ps: Seq<Coord>) -> Seq<Coord> {
    if ring_needs_closing(ps) {
        ps.push(ps[0])
    } else {
        ps
    }
}

/// The reason carried by every structural-geometry error of this crate.
pub open spec fn ring_length_reason() -> Seq<char> {
    "impossible to create a LinearRing, A LinearRing must have at least 3 coordinates"@
}

/// Converts one ring into the engine's coordinate-sequence form, applying
/// closure repair: an empty ring stays an empty sequence; a one- or
/// two-point ring is rejected before any repair; an open ring, or a closed
/// ring of exactly three listed points, gains a copy of its first point; any
/// other closed ring passes through unchanged.
pub fn convert_ring(ring: &Vec<Coord>) -> (r: Result<CoordSeq, ErrorKind>)
    ensures
        r is Ok <==> ring_admissible(ring@),
        r matches Ok(s) ==> s@ == repaired_ring(ring@),
        r matches Err(e) ==> e matches ErrorKind::InvalidGeometry { reason }
            && reason@ == ring_length_reason(),
{
    let n = ring.len();
    if n > 0 && n < 3 {
        return Err(ErrorKind::InvalidGeometry {
            reason: "impossible to create a LinearRing, A LinearRing must have at least 3 coordinates".to_owned(),
        });
    }
    if n == 0 {
        return build_sequence(ring);
    }
    let is_closed = coords_equal(&ring[0], &ring[n - 1]);
    let need_closing = !is_closed || n == 3;
    if need_closing {
        let mut closed: Vec<Coord> = Vec::new();
        let mut i: usize = 0;
        while i < n
            invariant
                n == ring@.len(),
                i <= n,
                closed@ == ring@.subrange(0, i as int),
            decreases n - i,
        {
            closed.push(ring[i]);
            i = i + 1;
        }
        proof {
            assert(closed@ =~= ring@);
        }
        closed.push(ring[0]);
        build_sequence(&closed)
    } else {
        build_sequence(ring)
    }
}

/// Every interior ring of a polygon is admissible.
pub open spec fn rings_admissible(rs: Seq<Vec<Coord>>) -> bool {
    forall|i: int| 0 <= i < rs.len() ==> ring_admissible(#[trigger] rs[i]@)
}

/// A polygon the engine can accept: its exterior and all its holes are
/// admissible rings.
pub open spec fn polygon_admissible(p: PolygonValue) -> bool {
    ring_admissible(p.exterior@) && rings_admissible(p.interiors@)
}

/// The prepared polygon holds exactly the repaired rings of the value.
pub open spec fn polygon_prepared(pp: PreparedPolygon, p: PolygonValue) -> bool {
    pp.exterior@ == repaired_ring(p.exterior@)
        && pp.interiors@.len() == p.interiors@.len()
        && forall|i: int| 0 <= i < p.interiors@.len()
            ==> (#[trigger] pp.interiors@[i])@ == repaired_ring(p.interiors@[i]@)
}

/// Converts a polygon: the exterior ring first, then each hole, failing fast
/// on the first inadmissible ring and yielding no partial result.
pub fn convert_polygon(p: &PolygonValue) -> (r: Result<PreparedPolygon, ErrorKind>)
    ensures
        r is Ok <==> polygon_admissible(*p),
        r matches Ok(pp) ==> polygon_prepared(pp, *p),
        r matches Err(e) ==> e matches ErrorKind::InvalidGeometry { reason }
            && reason@ == ring_length_reason(),
{
    let exterior = match convert_ring(&p.exterior) {
        Ok(s) => s,
        Err(e) => {
            return Err(e);
        }
    };
    let n = p.interiors.len();
    let mut interiors: Vec<CoordSeq> = Vec::new();
    let mut i: usize = 0;
    while i < n
        invariant
            n == p.interiors@.len(),
            i <= n,
            interiors@.len() == i,
            forall|j: int| 0 <= j < i ==> ring_admissible(#[trigger] p.interiors@[j]@),
            forall|j: int| 0 <= j < i
                ==> (#[trigger] interiors@[j])@ == repaired_ring(p.interiors@[j]@),
        decreases n - i,
    {
        match convert_ring(&p.interiors[i]) {
            Ok(s) => {
                interiors.push(s);
            }
            Err(e) => {
                return Err(e);
            }
        }
        i = i + 1;
    }
    Ok(PreparedPolygon { exterior, interiors })
}

/// Every member polygon is admissible.
pub open spec fn polygons_admissible(ps: Seq<PolygonValue>) -> bool {
    forall|i: int| 0 <= i < ps.len() ==> polygon_admissible(#[trigger] ps[i])
}

/// The prepared members match the values one for one.
pub open spec fn polygons_prepared(pps: Seq<PreparedPolygon>, ps: Seq<PolygonValue>) -> bool {
    pps.len() == ps.len()
        && forall|i: int| 0 <= i < ps.len() ==> polygon_prepared(#[trigger] pps[i], ps[i])
}

/// Converts each member polygon independently, failing fast on the first
/// member that fails and yielding no partial aggregate.
pub fn convert_multi_polygon(ps: &Vec<PolygonValue>) -> (r: Result<Vec<PreparedPolygon>, ErrorKind>)
    ensures
        r is Ok <==> polygons_admissible(ps@),
        r matches Ok(pps) ==> polygons_prepared(pps@, ps@),
        r matches Err(e) ==> e matches ErrorKind::InvalidGeometry { reason }
            && reason@ == ring_length_reason(),
{
    let n = ps.len();
    let mut pps: Vec<PreparedPolygon> = Vec::new();
    let mut i: usize = 0;
    while i < n
        invariant
            n == ps@.len(),
            i <= n,
            pps@.len() == i,
            forall|j: int| 0 <= j < i ==> polygon_admissible(#[trigger] ps@[j]),
            forall|j: int| 0 <= j < i ==> polygon_prepared(#[trigger] pps@[j], ps@[j]),
        decreases n - i,
    {
        match convert_polygon(&ps[i]) {
            Ok(pp) => {
                pps.push(pp);
            }
            Err(e) => {
                return Err(e);
            }
        }
        i = i + 1;
    }
    Ok(pps)
}

/// A geometry value the engine can accept.
pub open spec fn geometry_admissible(g: GeometryValue) -> bool {
    match g {
        GeometryValue::Point(_) => true,
        GeometryValue::LineString(_) => true,
        GeometryValue::Polygon(p) => polygon_admissible(p),
        GeometryValue::MultiPolygon(ps) => polygons_admissible(ps@),
    }
}

/// The prepared geometry is the value's engine form: a point becomes a
/// one-slot sequence, a line keeps its coordinates, and polygon rings are
/// repaired.
pub open spec fn geometry_prepared(pg: PreparedGeometry, g: GeometryValue) -> bool {
    match g {
        GeometryValue::Point(c) => pg matches PreparedGeometry::Point(s) && s@ == seq![c],
        GeometryValue::LineString(cs) => pg matches PreparedGeometry::LineString(s) && s@ == cs@,
        GeometryValue::Polygon(p) => pg matches PreparedGeometry::Polygon(pp)
            && polygon_prepared(pp, p),
        GeometryValue::MultiPolygon(ps) => pg matches PreparedGeometry::MultiPolygon(pps)
            && polygons_prepared(pps@, ps@),
    }
}

/// Converts an application geometry value into the form the geometry engine
/// consumes: a pure, single-pass transform with no partial result on
/// failure.
pub fn convert_geometry(g: &GeometryValue) -> (r: Result<PreparedGeometry, ErrorKind>)
    ensures
        r is Ok <==> geometry_admissible(*g),
        r matches Ok(pg) ==> geometry_prepared(pg, *g),
        r matches Err(e) ==> e matches ErrorKind::InvalidGeometry { reason }
            && reason@ == ring_length_reason(),
{
    match g {
        GeometryValue::Point(c) => {
            let mut pts: Vec<Coord> = Vec::new();
            pts.push(*c);
            let s = match build_sequence(&pts) {
                Ok(s) => s,
                Err(e) => {
                    return Err(e);
                }
            };
            proof {
                assert(s@ =~= seq![*c]);
            }
            Ok(PreparedGeometry::Point(s))
        }
        GeometryValue::LineString(cs) => {
            match build_sequence(cs) {
                Ok(s) => Ok(PreparedGeometry::LineString(s)),
                Err(e) => Err(e),
            }
        }
        GeometryValue::Polygon(p) => {
            match convert_polygon(p) {
                Ok(pp) => Ok(PreparedGeometry::Polygon(pp)),
                Err(e) => Err(e),
            }
        }
        GeometryValue::MultiPolygon(ps) => {
            match convert_multi_polygon(ps) {
                Ok(pps) => Ok(PreparedGeometry::MultiPolygon(pps)),
                Err(e) => Err(e),
            }
        }
    }
}

} // verus!
