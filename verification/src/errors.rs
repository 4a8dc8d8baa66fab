use vstd::prelude::*;

use crate::decimal::{decimal_render, render_u64};

verus! {

/// Success status of the reference-system engine's native calls.
pub const STATUS_SUCCESS: u32 = 0;

/// A typed error for every failure the mediation layer can report.
///
/// Every operation of this crate that can fail returns one of these; no
/// failure is silently swallowed and none changes process-wide state.
#[derive(Debug, Clone, PartialEq, Eq)]
pub enum ErrorKind {
    /// A string meant for a native C API holds an embedded NUL byte.
    Encoding,
    /// A native constructor returned a null handle.
    NullHandle { operation: String },
    /// A native reference-system call reported a non-success status code.
    ReferenceSystem { code: u32, operation: String },
    /// The reference system carries no authority name/code pair, or its
    /// code segment is not a parsable integer.
    MissingAuthority,
    /// An in-place coordinate transform failed; the identities of both
    /// systems are always present, the engine's diagnostic only when the
    /// engine supplied a non-blank one.
    InvalidCoordinateRange { from: String, to: String, msg: Option<String> },
    /// A ring or polygon is structurally invalid.
    InvalidGeometry { reason: String },
    /// The geometry engine rejected a per-index write into a coordinate
    /// sequence.
    SequenceWrite { index: usize },
}

/// The human-readable description of an error.
pub open spec fn message_view(e: ErrorKind) -> Seq<char> {
    match e {
        ErrorKind::Encoding => "string holds an embedded NUL byte"@,
        ErrorKind::NullHandle { operation } => operation@ + " returned a null handle"@,
        ErrorKind::ReferenceSystem { code, operation } => operation@
            + " failed with status code "@ + decimal_render(code as int),
        ErrorKind::MissingAuthority => "reference system has no parsable authority name and code"@,
        ErrorKind::InvalidCoordinateRange { from, to, msg } => match msg {
            Some(m) => "failed to transform coordinates from "@ + from@ + " to "@ + to@ + ": "@
                + m@,
            None => "failed to transform coordinates from "@ + from@ + " to "@ + to@,
        },
        ErrorKind::InvalidGeometry { reason } => "Invalid geometry, "@ + reason@,
        ErrorKind::SequenceWrite { index } => "coordinate sequence write rejected at index "@
            + decimal_render(index as int),
    }
}

impl ErrorKind {
    /// Renders the error for display.
    pub fn message(&self) -> (r: String)
        ensures
            r@ == message_view(*self),
    {
        match self {
            ErrorKind::Encoding => "string holds an embedded NUL byte".to_owned(),
            ErrorKind::NullHandle { operation } => {
                let mut s = operation.clone();
                s.append(" returned a null handle");
                s
            }
            ErrorKind::ReferenceSystem { code, operation } => {
                let mut s = operation.clone();
                s.append(" failed with status code ");
                let digits = render_u64(*code as u64);
                s.append(digits.as_str());
                s
            }
            ErrorKind::MissingAuthority => {
                "reference system has no parsable authority name and code".to_owned()
            }
            ErrorKind::InvalidCoordinateRange { from, to, msg } => {
                let mut s = "failed to transform coordinates from ".to_owned();
                s.append(from.as_str());
                s.append(" to ");
                s.append(to.as_str());
                match msg {
                    Some(m) => {
                        s.append(": ");
                        s.append(m.as_str());
                    }
                    None => {}
                }
                s
            }
            ErrorKind::InvalidGeometry { reason } => {
                let mut s = "Invalid geometry, ".to_owned();
                s.append(reason.as_str());
                s
            }
            ErrorKind::SequenceWrite { index } => {
                let mut s = "coordinate sequence write rejected at index ".to_owned();
                let digits = render_u64(*index as u64);
                s.append(digits.as_str());
                s
            }
        }
    }
}

/// Translates a native reference-system status code: zero is success,
/// anything else becomes a typed error naming the failing operation.
pub fn ogr_status(code: u32, operation: &str) -> (r: Result<(), ErrorKind>)
    ensures
        r is Ok <==> code == STATUS_SUCCESS,
        r matches Err(e) ==> e matches ErrorKind::ReferenceSystem { code: c, operation: op }
            && c == code && op@ == operation@,
{
    if code == STATUS_SUCCESS {
        Ok(())
    } else {
        Err(ErrorKind::ReferenceSystem { code, operation: operation.to_owned() })
    }
}

/// Translates the null check after a native constructor call: a null handle
/// becomes a typed error naming the failing operation.
pub fn null_handle_check(handle_is_null: bool, operation: &str) -> (r: Result<(), ErrorKind>)
    ensures
        r is Ok <==> !handle_is_null,
        r matches Err(e) ==> e matches ErrorKind::NullHandle { operation: op }
            && op@ == operation@,
{
    if handle_is_null {
        Err(ErrorKind::NullHandle { operation: operation.to_owned() })
    } else {
        Ok(())
    }
}

} // verus!
