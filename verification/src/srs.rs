use vstd::prelude::*;

use crate::decimal::{decimal_render, lemma_render_round_trip, parse_decimal_i32, parse_i32_text};
use crate::errors::ErrorKind;

verus! {

/// The axis-order policy of a reference system: either the axis order the
/// defining authority prescribes, or the traditional GIS order with
/// x (easting / longitude) before y.
#[derive(Clone, Copy, Debug, PartialEq, Eq, Structural)]
pub enum AxisMappingStrategy {
    /// Follow the authority's canonical axis order.
    AuthorityCompliant,
    /// Force x-before-y ordering, whatever the authority says.
    TraditionalGisOrder,
}

/// The code the native engine uses for an axis-mapping strategy.
pub open spec fn strategy_native_code(s: AxisMappingStrategy) -> u32 {
    match s {
        AxisMappingStrategy::TraditionalGisOrder => 0u32,
        AxisMappingStrategy::AuthorityCompliant => 1u32,
    }
}

/// Encodes an axis-mapping strategy as the native engine's code.
pub fn strategy_to_native(s: AxisMappingStrategy) -> (r: u32)
    ensures
        r == strategy_native_code(s),
{
    match s {
        AxisMappingStrategy::TraditionalGisOrder => 0,
        AxisMappingStrategy::AuthorityCompliant => 1,
    }
}

/// Decodes the native engine's axis-mapping code; codes this crate does not
/// model (the engine's custom mapping) yield nothing.
pub fn strategy_from_native(code: u32) -> (r: Option<AxisMappingStrategy>)
    ensures
        r is Some <==> code == 0 || code == 1,
        r matches Some(s) ==> strategy_native_code(s) == code,
{
    if code == 0 {
        Some(AxisMappingStrategy::TraditionalGisOrder)
    } else if code == 1 {
        Some(AxisMappingStrategy::AuthorityCompliant)
    } else {
        None
    }
}

/// The construction paths of a reference-system handle.
#[derive(Clone, Copy, Debug, PartialEq, Eq, Structural)]
pub enum ImportKind {
    /// The empty constructor.
    Empty,
    /// A generic user-input definition string.
    Definition,
    /// Well-known text.
    Wkt,
    /// An authority (EPSG) code.
    Epsg,
    /// A legacy projection-parameter string.
    Proj4,
    /// The industry WKT dialect.
    Esri,
}

/// The axis-order normalization each construction path applies after a
/// successful import: the well-known-text, authority-code, legacy
/// projection-string and industry-WKT paths force traditional GIS order,
/// because downstream coordinate consumers assume x before y; the empty and
/// generic-definition paths leave the handle as the engine made it.
pub open spec fn spec_import_axis_strategy(k: ImportKind) -> Option<AxisMappingStrategy> {
    match k {
        ImportKind::Wkt => Some(AxisMappingStrategy::TraditionalGisOrder),
        ImportKind::Epsg => Some(AxisMappingStrategy::TraditionalGisOrder),
        ImportKind::Proj4 => Some(AxisMappingStrategy::TraditionalGisOrder),
        ImportKind::Esri => Some(AxisMappingStrategy::TraditionalGisOrder),
        ImportKind::Empty => None,
        ImportKind::Definition => None,
    }
}

/// Decides which axis-mapping strategy a construction path must apply after
/// its import succeeds, if any.
pub fn import_axis_strategy(k: ImportKind) -> (r: Option<AxisMappingStrategy>)
    ensures
        r == spec_import_axis_strategy(k),
{
    match k {
        ImportKind::Wkt => Some(AxisMappingStrategy::TraditionalGisOrder),
        ImportKind::Epsg => Some(AxisMappingStrategy::TraditionalGisOrder),
        ImportKind::Proj4 => Some(AxisMappingStrategy::TraditionalGisOrder),
        ImportKind::Esri => Some(AxisMappingStrategy::TraditionalGisOrder),
        ImportKind::Empty => None,
        ImportKind::Definition => None,
    }
}

/// Parses the code segment of an authority tag. A segment that is not a
/// decimal integer within range makes the whole authority unusable, which
/// is the missing-authority error.
pub fn parse_authority_code(text: &str) -> (r: Result<i32, ErrorKind>)
    ensures
        r is Ok <==> parse_decimal_i32(text@) is Some,
        r matches Ok(n) ==> parse_decimal_i32(text@) == Some(n as int),
        r matches Err(e) ==> e is MissingAuthority,
{
    match parse_i32_text(text) {
        Some(n) => Ok(n),
        None => Err(ErrorKind::MissingAuthority),
    }
}

/// Joins an authority name and code segment into the display identity
/// `"<name>:<code>"`.
pub fn authority_identity(name: &str, code: &str) -> (r: String)
    ensures
        r@ == name@ + ":"@ + code@,
{
    let mut s = name.to_owned();
    s.append(":");
    s.append(code);
    s
}

/// Builds the display identity of a reference system from what the engine
/// reported: both the authority name and the code segment must be present,
/// else the authority is missing.
pub fn authority_from_parts(name: Option<&str>, code: Option<&str>) -> (r: Result<
    String,
    ErrorKind,
>)
    ensures
        r is Ok <==> name is Some && code is Some,
        r matches Ok(s) ==> (name matches Some(n) && code matches Some(c) && s@ == n@ + ":"@
            + c@),
        r matches Err(e) ==> e is MissingAuthority,
{
    match (name, code) {
        (Some(n), Some(c)) => Ok(authority_identity(n, c)),
        _ => Err(ErrorKind::MissingAuthority),
    }
}

/// Extracts the numeric authority code from what the engine reported: the
/// code segment must be present and parse as a decimal integer in range,
/// else the authority is missing.
pub fn authority_code_from_part(code: Option<&str>) -> (r: Result<i32, ErrorKind>)
    ensures
        r is Ok <==> (code matches Some(c) && parse_decimal_i32(c@) is Some),
        r matches Ok(n) ==> (code matches Some(c) && parse_decimal_i32(c@) == Some(n as int)),
        r matches Err(e) ==> e is MissingAuthority,
{
    match code {
        Some(c) => parse_authority_code(c),
        None => Err(ErrorKind::MissingAuthority),
    }
}

/// For every authority code within the signed 32-bit range, rendering the
/// code in decimal — the form in which the engine reports the code segment
/// back — and parsing that segment again yields the code itself.
pub proof fn lemma_authority_code_round_trip(code: u32)
    requires
        code <= i32::MAX as u32,
    ensures
        parse_decimal_i32(decimal_render(code as int)) == Some(code as int),
{
    lemma_render_round_trip(code as int);
}

} // verus!
