use spatial_bridge::coord::{coords_equal, Coord};
use spatial_bridge::encoding::check_c_string;
use spatial_bridge::errors::ErrorKind;
use spatial_bridge::transform::{choose_identity, str_is_blank, transform_outcome};

fn config_pair_ok(key: &str, value: &str) -> bool {
    check_c_string(key).is_ok() && check_c_string(value).is_ok()
}

#[test]
fn test_set_option_with_embedded_nul() {
    assert!(!config_pair_ok("f\0oo", "valid"));
    assert!(!config_pair_ok("foo", "in\0valid"));
    assert!(!config_pair_ok("xxxf\0oo", "in\0valid"));
}

#[test]
fn plain_strings_embed_as_c_strings() {
    assert!(check_c_string("").is_ok());
    assert!(check_c_string("GDAL_CACHEMAX").is_ok());
    assert!(check_c_string("+proj=longlat +datum=WGS84 +no_defs").is_ok());
}

#[test]
fn nul_anywhere_is_an_encoding_error() {
    assert_eq!(check_c_string("\0").err().unwrap(), ErrorKind::Encoding);
    assert_eq!(check_c_string("abc\0").err().unwrap(), ErrorKind::Encoding);
    assert_eq!(
        check_c_string("\0abc").err().unwrap().message(),
        "string holds an embedded NUL byte"
    );
}

#[test]
fn blankness_follows_unicode_white_space() {
    assert!(str_is_blank(""));
    assert!(str_is_blank(" \t\r\n"));
    assert!(str_is_blank("\u{a0}\u{2009}"));
    assert!(!str_is_blank(" latitude out of range "));
}

#[test]
fn successful_transform_reports_nothing() {
    assert!(transform_outcome(true, "EPSG:4326", "EPSG:3035", "").is_ok());
}

#[test]
fn failed_transform_reports_both_identities() {
    let e = transform_outcome(false, "EPSG:4326", "EPSG:31462", "latitude or longitude exceeded limits")
        .err()
        .unwrap();
    assert_eq!(
        e,
        ErrorKind::InvalidCoordinateRange {
            from: "EPSG:4326".to_string(),
            to: "EPSG:31462".to_string(),
            msg: Some("latitude or longitude exceeded limits".to_string()),
        }
    );
    assert_eq!(
        e.message(),
        "failed to transform coordinates from EPSG:4326 to EPSG:31462: latitude or longitude exceeded limits"
    );
}

#[test]
fn blank_diagnostic_is_dropped_not_papered_over() {
    let e = transform_outcome(false, "EPSG:4326", "EPSG:3857", " \n\t ").err().unwrap();
    assert_eq!(
        e,
        ErrorKind::InvalidCoordinateRange {
            from: "EPSG:4326".to_string(),
            to: "EPSG:3857".to_string(),
            msg: None,
        }
    );
    assert_eq!(
        e.message(),
        "failed to transform coordinates from EPSG:4326 to EPSG:3857"
    );
}

#[test]
fn non_blank_diagnostic_is_kept_untrimmed() {
    let e = transform_outcome(false, "a", "b", "  tolerance condition error  ").err().unwrap();
    match e {
        ErrorKind::InvalidCoordinateRange { msg, .. } => {
            assert_eq!(msg.unwrap(), "  tolerance condition error  ");
        }
        _ => panic!("expected a coordinate-range error"),
    }
}

#[test]
fn identity_prefers_authority_then_falls_back() {
    let authority: Result<String, ErrorKind> = Ok("EPSG:4326".to_string());
    let fallback: Result<String, ErrorKind> = Ok("+proj=longlat".to_string());
    assert_eq!(
        choose_identity(authority, fallback.clone()).unwrap(),
        "EPSG:4326"
    );
    let no_authority: Result<String, ErrorKind> = Err(ErrorKind::MissingAuthority);
    assert_eq!(
        choose_identity(no_authority.clone(), fallback).unwrap(),
        "+proj=longlat"
    );
    let bad_export: Result<String, ErrorKind> = Err(ErrorKind::ReferenceSystem {
        code: 6,
        operation: "OSRExportToProj4".to_string(),
    });
    assert_eq!(
        choose_identity(no_authority, bad_export.clone()).err().unwrap(),
        bad_export.err().unwrap()
    );
}

#[test]
fn coordinate_equality_is_numeric() {
    let a = Coord { x: 0f64.to_bits(), y: 1f64.to_bits() };
    let b = Coord { x: (-0f64).to_bits(), y: 1f64.to_bits() };
    assert!(coords_equal(&a, &b));
    let n = Coord { x: f64::NAN.to_bits(), y: 1f64.to_bits() };
    assert!(!coords_equal(&n, &n));
    let c = Coord { x: 2.5f64.to_bits(), y: 1f64.to_bits() };
    let d = Coord { x: 2.5f64.to_bits(), y: 1f64.to_bits() };
    assert!(coords_equal(&c, &d));
    assert!(!coords_equal(&a, &c));
}
