use spatial_bridge::coord::Coord;
use spatial_bridge::geometry::GeometryValue;
use spatial_bridge::vector::{
    bbox, geometry_count, geometry_type, point_vec, Dataset, Feature, Field, FieldDefn,
    FieldType, FieldValue, GeometryField, GeometryType, Layer,
};

fn c(x: f64, y: f64) -> Coord {
    Coord { x: x.to_bits(), y: y.to_bits() }
}

fn line(points: Vec<(f64, f64)>) -> GeometryValue {
    GeometryValue::LineString(points.into_iter().map(|(x, y)| c(x, y)).collect())
}

fn road(highway: &str, sort_key: f64, points: Vec<(f64, f64)>) -> Feature {
    Feature {
        fields: vec![
            Field { name: "id".to_string(), value: FieldValue::Text(String::new()) },
            Field { name: "kind".to_string(), value: FieldValue::Text("minor_road".to_string()) },
            Field { name: "sort_key".to_string(), value: FieldValue::Real(sort_key.to_bits()) },
            Field { name: "is_link".to_string(), value: FieldValue::Text("no".to_string()) },
            Field { name: "is_tunnel".to_string(), value: FieldValue::Text("no".to_string()) },
            Field { name: "is_bridge".to_string(), value: FieldValue::Text("no".to_string()) },
            Field { name: "railway".to_string(), value: FieldValue::Text(String::new()) },
            Field { name: "highway".to_string(), value: FieldValue::Text(highway.to_string()) },
        ],
        geometries: vec![GeometryField { name: String::new(), geometry: line(points) }],
    }
}

/// The in-memory stand-in for the roads layer the unverified dataset
/// collaborator would hand over: one layer, twenty-one line features, the
/// first one exactly as the collaborator reports it.
fn roads_dataset() -> Dataset {
    let mut features = vec![road(
        "footway",
        -9.0,
        vec![
            (26.1019276, 44.4302748),
            (26.1019382, 44.4303191),
            (26.1020002, 44.4304202),
        ],
    )];
    for i in 0..18 {
        let base = 26.1 + (i as f64) / 1000.0;
        features.push(road("service", 0.0, vec![(base, 44.43), (base, 44.431)]));
    }
    features.push(road("residential", 3.0, vec![(26.102, 44.43), (26.103, 44.431)]));
    features.push(road("residential", 3.0, vec![(26.101, 44.43), (26.102, 44.431)]));
    let defn = vec![
        FieldDefn { name: "id".to_string(), field_type: FieldType::Text },
        FieldDefn { name: "kind".to_string(), field_type: FieldType::Text },
        FieldDefn { name: "sort_key".to_string(), field_type: FieldType::Real },
        FieldDefn { name: "is_link".to_string(), field_type: FieldType::Text },
        FieldDefn { name: "is_tunnel".to_string(), field_type: FieldType::Text },
        FieldDefn { name: "is_bridge".to_string(), field_type: FieldType::Text },
        FieldDefn { name: "railway".to_string(), field_type: FieldType::Text },
        FieldDefn { name: "highway".to_string(), field_type: FieldType::Text },
    ];
    Dataset { layers: vec![Layer { name: "roads".to_string(), defn, features }] }
}

#[test]
fn test_layer_count() {
    let ds = roads_dataset();
    assert_eq!(ds.count(), 1);
}

#[test]
fn test_iterate_features() {
    let ds = roads_dataset();
    let layer = ds.layer(0).unwrap();
    assert_eq!(layer.feature_count(), 21);
}

#[test]
fn test_string_field() {
    let ds = roads_dataset();
    let layer = ds.layer(0).unwrap();
    let feature = &layer.features[0];
    assert_eq!(
        feature.field("highway").unwrap().clone().into_string(),
        Some("footway".to_string())
    );
    let residential = layer
        .features
        .iter()
        .filter(|f| {
            f.field("highway").unwrap().clone().into_string() == Some("residential".to_string())
        })
        .count();
    assert_eq!(residential, 2);
}

#[test]
fn test_float_field() {
    let ds = roads_dataset();
    let layer = ds.layer(0).unwrap();
    let bits = layer.features[0]
        .field("sort_key")
        .unwrap()
        .clone()
        .into_real()
        .unwrap();
    assert!((f64::from_bits(bits) - -9.0).abs() < 1e-9);
}

#[test]
fn test_missing_field() {
    let ds = roads_dataset();
    let layer = ds.layer(0).unwrap();
    assert!(layer.features[0].field("no such field").is_none());
}

#[test]
fn test_geom_accessors() {
    let ds = roads_dataset();
    let layer = ds.layer(0).unwrap();
    let feature = &layer.features[0];
    let geom = feature.geometry().unwrap();
    assert_eq!(geometry_type(geom), GeometryType::LineString);
    let coords = point_vec(geom);
    assert_eq!(
        coords,
        vec![
            c(26.1019276, 44.4302748),
            c(26.1019382, 44.4303191),
            c(26.1020002, 44.4304202),
        ]
    );
    assert_eq!(geometry_count(geom), 0);

    let geom = feature.geometry_by_index(0).unwrap();
    assert_eq!(geometry_type(geom), GeometryType::LineString);
    assert!(feature.geometry_by_index(1).is_none());
    let geom = feature.geometry_by_name("");
    assert!(geom.is_some());
    assert_eq!(geometry_type(geom.unwrap()), GeometryType::LineString);
    assert!(feature.geometry_by_name("FOO").is_none());
}

#[test]
fn test_schema() {
    let ds = roads_dataset();
    let layer = ds.layer(0).unwrap();
    assert!(layer.name() == "OGRGeoJSON" || layer.name() == "roads");
    let name_list = layer
        .defn
        .iter()
        .map(|f| (f.name.clone(), f.field_type))
        .collect::<Vec<_>>();
    let ok_names_types = vec![
        ("id", FieldType::Text),
        ("kind", FieldType::Text),
        ("sort_key", FieldType::Real),
        ("is_link", FieldType::Text),
        ("is_tunnel", FieldType::Text),
        ("is_bridge", FieldType::Text),
        ("railway", FieldType::Text),
        ("highway", FieldType::Text),
    ]
    .iter()
    .map(|s| (s.0.to_string(), s.1))
    .collect::<Vec<_>>();
    assert_eq!(name_list, ok_names_types);
}

#[test]
fn test_get_layer_by_name() {
    let ds = roads_dataset();
    if let Some(layer) = ds.layer_by_name("OGRGeoJSON") {
        assert_eq!(layer.name(), "OGRGeoJSON");
    }
    if let Some(layer) = ds.layer_by_name("roads") {
        assert_eq!(layer.name(), "roads");
    }
    assert!(ds.layer_by_name("no such layer").is_none());
}

#[test]
fn test_create_bbox() {
    let b = bbox(
        (-27.0f64).to_bits(),
        33.0f64.to_bits(),
        52.0f64.to_bits(),
        85.0f64.to_bits(),
    );
    match b {
        GeometryValue::Polygon(p) => {
            assert!(p.interiors.is_empty());
            assert_eq!(
                p.exterior,
                vec![c(-27.0, 85.0), c(52.0, 85.0), c(52.0, 33.0), c(-27.0, 33.0), c(-27.0, 85.0)]
            );
        }
        _ => panic!("expected a polygon"),
    }
}
