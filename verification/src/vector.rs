//! The in-memory form of the value exchange with the dataset/layer/feature
//! collaborator: the core consumes geometry values, attribute fields and
//! authority codes from it and hands geometry values back. Reading and
//! writing actual datasets is native I/O and stays outside the library;
//! these types carry what crosses the boundary.

use vstd::prelude::*;

use crate::coord::Coord;
use crate::geometry::{GeometryValue, PolygonValue};

verus! {

/// The declared type of an attribute field.
#[derive(Clone, Copy, Debug, PartialEq, Eq, Structural)]
pub enum FieldType {
    /// Textual attribute.
    Text,
    /// Floating-point attribute, carried as a bit pattern.
    Real,
    /// Integer attribute.
    Integer,
}

/// One attribute value of a feature.
#[derive(Clone, Debug, PartialEq, Eq)]
pub enum FieldValue {
    /// Textual attribute.
    Text(String),
    /// Floating-point attribute as the IEEE-754 bit pattern of a binary64
    /// number; the unverified boundary converts.
    Real(u64),
    /// Integer attribute.
    Integer(i64),
}

impl FieldValue {
    /// The text of a textual value.
    pub fn into_string(self) -> (r: Option<String>)
        ensures
            r matches Some(s) ==> self matches FieldValue::Text(t) && s == t,
            r is Some <==> self is Text,
    {
        match self {
            FieldValue::Text(s) => Some(s),
            _ => None,
        }
    }

    /// The bit pattern of a floating-point value.
    pub fn into_real(self) -> (r: Option<u64>)
        ensures
            r matches Some(b) ==> self matches FieldValue::Real(v) && b == v,
            r is Some <==> self is Real,
    {
        match self {
            FieldValue::Real(b) => Some(b),
            _ => None,
        }
    }

    /// The value of an integer field.
    pub fn into_int(self) -> (r: Option<i64>)
        ensures
            r matches Some(n) ==> self matches FieldValue::Integer(v) && n == v,
            r is Some <==> self is Integer,
    {
        match self {
            FieldValue::Integer(n) => Some(n),
            _ => None,
        }
    }
}

/// One named attribute of a feature.
#[derive(Clone, Debug)]
pub struct Field {
    /// The attribute's name.
    pub name: String,
    /// The attribute's value.
    pub value: FieldValue,
}

/// One entry of a layer's attribute schema.
#[derive(Clone, Debug)]
pub struct FieldDefn {
    /// The attribute's name.
    pub name: String,
    /// The attribute's declared type.
    pub field_type: FieldType,
}

/// One named geometry of a feature; the default geometry carries the empty
/// name.
pub struct GeometryField {
    /// The geometry field's name.
    pub name: String,
    /// The geometry itself.
    pub geometry: GeometryValue,
}

/// One feature: its attributes and its geometries.
pub struct Feature {
    /// The attribute values.
    pub fields: Vec<Field>,
    /// The geometry fields, the default one first.
    pub geometries: Vec<GeometryField>,
}

/// Compares two strings by content.
fn str_eq(a: &str, b: &str) -> (r: bool)
    ensures
        r == (a@ == b@),
{
    let sa = a.to_owned();
    let sb = b.to_owned();
    sa.eq(&sb)
}

/// Whether some field of the sequence carries the name.
pub open spec fn has_field(fields: Seq<Field>, name: Seq<char>) -> bool {
    exists|i: int| 0 <= i < fields.len() && (#[trigger] fields[i]).name@ == name
}

impl Feature {
    /// Looks an attribute up by name: the first field carrying the name,
    /// nothing when no field does.
    pub fn field(&self, name: &str) -> (r: Option<&FieldValue>)
        ensures
            r is Some <==> has_field(self.fields@, name@),
            r matches Some(v) ==> exists|i: int|
                0 <= i < self.fields@.len() && (#[trigger] self.fields@[i]).name@ == name@ && *v
                    == self.fields@[i].value && (forall|j: int|
                    0 <= j < i ==> (#[trigger] self.fields@[j]).name@ != name@),
    {
        let n = self.fields.len();
        let mut i: usize = 0;
        while i < n
            invariant
                n == self.fields@.len(),
                i <= n,
                forall|j: int| 0 <= j < i ==> (#[trigger] self.fields@[j]).name@ != name@,
            decreases n - i,
        {
            if str_eq(self.fields[i].name.as_str(), name) {
                return Some(&self.fields[i].value);
            }
            i = i + 1;
        }
        None
    }

    /// The default geometry: the feature's first geometry field.
    pub fn geometry(&self) -> (r: Option<&GeometryValue>)
        ensures
            r is Some <==> self.geometries@.len() > 0,
            r matches Some(g) ==> *g == self.geometries@[0].geometry,
    {
        if self.geometries.len() > 0 {
            Some(&self.geometries[0].geometry)
        } else {
            None
        }
    }

    /// The geometry field at `index`.
    pub fn geometry_by_index(&self, index: usize) -> (r: Option<&GeometryValue>)
        ensures
            r is Some <==> index < self.geometries@.len(),
            r matches Some(g) ==> *g == self.geometries@[index as int].geometry,
    {
        if index < self.geometries.len() {
            Some(&self.geometries[index].geometry)
        } else {
            None
        }
    }

    /// The first geometry field carrying the name.
    pub fn geometry_by_name(&self, name: &str) -> (r: Option<&GeometryValue>)
        ensures
            r is Some <==> exists|i: int|
                0 <= i < self.geometries@.len() && (#[trigger] self.geometries@[i]).name@ == name@,
            r matches Some(g) ==> exists|i: int|
                0 <= i < self.geometries@.len() && (#[trigger] self.geometries@[i]).name@ == name@
                    && *g == self.geometries@[i].geometry && (forall|j: int|
                    0 <= j < i ==> (#[trigger] self.geometries@[j]).name@ != name@),
    {
        let n = self.geometries.len();
        let mut i: usize = 0;
        while i < n
            invariant
                n == self.geometries@.len(),
                i <= n,
                forall|j: int| 0 <= j < i ==> (#[trigger] self.geometries@[j]).name@ != name@,
            decreases n - i,
        {
            if str_eq(self.geometries[i].name.as_str(), name) {
                return Some(&self.geometries[i].geometry);
            }
            i = i + 1;
        }
        None
    }
}

/// One layer: its name, its attribute schema, and its features.
pub struct Layer {
    /// The layer's name.
    pub name: String,
    /// The attribute schema.
    pub defn: Vec<FieldDefn>,
    /// The features.
    pub features: Vec<Feature>,
}

impl Layer {
    /// The layer's name.
    pub fn name(&self) -> (r: &str)
        ensures
            r@ == self.name@,
    {
        self.name.as_str()
    }

    /// How many features the layer holds.
    pub fn feature_count(&self) -> (r: usize)
        ensures
            r == self.features@.len(),
    {
        self.features.len()
    }
}

/// One dataset: its layers.
pub struct Dataset {
    /// The layers.
    pub layers: Vec<Layer>,
}

impl Dataset {
    /// How many layers the dataset holds.
    pub fn count(&self) -> (r: usize)
        ensures
            r == self.layers@.len(),
    {
        self.layers.len()
    }

    /// The layer at `index`.
    pub fn layer(&self, index: usize) -> (r: Option<&Layer>)
        ensures
            r is Some <==> index < self.layers@.len(),
            r matches Some(l) ==> *l == self.layers@[index as int],
    {
        if index < self.layers.len() {
            Some(&self.layers[index])
        } else {
            None
        }
    }

    /// The first layer carrying the name.
    pub fn layer_by_name(&self, name: &str) -> (r: Option<&Layer>)
        ensures
            r is Some <==> exists|i: int|
                0 <= i < self.layers@.len() && (#[trigger] self.layers@[i]).name@ == name@,
            r matches Some(l) ==> exists|i: int|
                0 <= i < self.layers@.len() && (#[trigger] self.layers@[i]).name@ == name@ && *l
                    == self.layers@[i] && (forall|j: int|
                    0 <= j < i ==> (#[trigger] self.layers@[j]).name@ != name@),
    {
        let n = self.layers.len();
        let mut i: usize = 0;
        while i < n
            invariant
                n == self.layers@.len(),
                i <= n,
                forall|j: int| 0 <= j < i ==> (#[trigger] self.layers@[j]).name@ != name@,
            decreases n - i,
        {
            if str_eq(self.layers[i].name.as_str(), name) {
                return Some(&self.layers[i]);
            }
            i = i + 1;
        }
        None
    }
}

/// The coarse kind of a geometry value.
#[derive(Clone, Copy, Debug, PartialEq, Eq, Structural)]
pub enum GeometryType {
    /// A single position.
    Point,
    /// An ordered path.
    LineString,
    /// One exterior ring with holes.
    Polygon,
    /// A collection of polygons.
    MultiPolygon,
}

/// The kind of a geometry value.
pub fn geometry_type(g: &GeometryValue) -> (r: GeometryType)
    ensures
        r is Point <==> g is Point,
        r is LineString <==> g is LineString,
        r is Polygon <==> g is Polygon,
        r is MultiPolygon <==> g is MultiPolygon,
{
    match g {
        GeometryValue::Point(_) => GeometryType::Point,
        GeometryValue::LineString(_) => GeometryType::LineString,
        GeometryValue::Polygon(_) => GeometryType::Polygon,
        GeometryValue::MultiPolygon(_) => GeometryType::MultiPolygon,
    }
}

/// The coordinates a point or path geometry lists; ring geometries list
/// their points through their rings instead.
pub fn point_vec(g: &GeometryValue) -> (r: Vec<Coord>)
    ensures
        g matches GeometryValue::Point(c) ==> r@ == seq![*c],
        g matches GeometryValue::LineString(cs) ==> r@ == cs@,
        (g is Polygon || g is MultiPolygon) ==> r@ == Seq::<Coord>::empty(),
{
    match g {
        GeometryValue::Point(c) => {
            let mut v: Vec<Coord> = Vec::new();
            v.push(*c);
            proof {
                assert(v@ =~= seq![*c]);
            }
            v
        }
        GeometryValue::LineString(cs) => {
            let n = cs.len();
            let mut v: Vec<Coord> = Vec::new();
            let mut i: usize = 0;
            while i < n
                invariant
                    n == cs@.len(),
                    i <= n,
                    v@ == cs@.subrange(0, i as int),
                decreases n - i,
            {
                v.push(cs[i]);
                i = i + 1;
            }
            proof {
                assert(v@ =~= cs@);
            }
            v
        }
        _ => Vec::new(),
    }
}

/// How many immediate sub-geometries a geometry value holds: rings for a
/// polygon, members for a collection, none for a point or path.
pub fn geometry_count(g: &GeometryValue) -> (r: usize)
    requires
        g matches GeometryValue::Polygon(p) ==> p.interiors@.len() < usize::MAX,
    ensures
        (g is Point || g is LineString) ==> r == 0,
        g matches GeometryValue::Polygon(p) ==> r == 1 + p.interiors@.len(),
        g matches GeometryValue::MultiPolygon(ps) ==> r == ps@.len(),
{
    match g {
        GeometryValue::Point(_) => 0,
        GeometryValue::LineString(_) => 0,
        GeometryValue::Polygon(p) => 1 + p.interiors.len(),
        GeometryValue::MultiPolygon(ps) => ps.len(),
    }
}

/// The axis-aligned rectangle over the given bounds, as the closed
/// five-point exterior ring `(west,north) (east,north) (east,south)
/// (west,south) (west,north)` of a polygon without holes. The bounds are
/// bit patterns of binary64 numbers and are only rearranged, never
/// computed with.
pub fn bbox(west: u64, south: u64, east: u64, north: u64) -> (r: GeometryValue)
    ensures
        r matches GeometryValue::Polygon(p) && p.interiors@.len() == 0 && p.exterior@ == seq![
            Coord { x: west, y: north },
            Coord { x: east, y: north },
            Coord { x: east, y: south },
            Coord { x: west, y: south },
            Coord { x: west, y: north },
        ],
{
    let mut ring: Vec<Coord> = Vec::new();
    ring.push(Coord { x: west, y: north });
    ring.push(Coord { x: east, y: north });
    ring.push(Coord { x: east, y: south });
    ring.push(Coord { x: west, y: south });
    ring.push(Coord { x: west, y: north });
    proof {
        assert(ring@ =~= seq![
            Coord { x: west, y: north },
            Coord { x: east, y: north },
            Coord { x: east, y: south },
            Coord { x: west, y: south },
            Coord { x: west, y: north },
        ]);
    }
    GeometryValue::Polygon(PolygonValue { exterior: ring, interiors: Vec::new() })
}

} // verus!
