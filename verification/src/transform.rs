use vstd::prelude::*;

use crate::errors::ErrorKind;
use vstd::string::StrSliceExecFns;

verus! {

/// Whether `c` has the Unicode white-space property, the class the
/// standard library's trimming removes.
pub open spec fn is_space_char(c: char) -> bool {
    let u = c as u32;
    u == 0x09 || u == 0x0a || u == 0x0b || u == 0x0c || u == 0x0d || u == 0x20 || u == 0x85
        || u == 0xa0 || u == 0x1680 || (0x2000 <= u && u <= 0x200a) || u == 0x2028 || u == 0x2029
        || u == 0x202f || u == 0x205f || u == 0x3000
}

/// Whether a string is blank: it trims to nothing because every character
/// is white space.
pub open spec fn is_blank(s: Seq<char>) -> bool {
    forall|i: int| 0 <= i < s.len() ==> is_space_char(#[trigger] s[i])
}

/// Decides whether a character is Unicode white space.
fn char_is_space(c: char) -> (r: bool)
    ensures
        r == is_space_char(c),
{
    let u = c as u32;
    u == 0x09 || u == 0x0a || u == 0x0b || u == 0x0c || u == 0x0d || u == 0x20 || u == 0x85
        || u == 0xa0 || u == 0x1680 || (0x2000 <= u && u <= 0x200a) || u == 0x2028 || u == 0x2029
        || u == 0x202f || u == 0x205f || u == 0x3000
}

/// Decides whether a string is blank.
pub fn str_is_blank(s: &str) -> (r: bool)
    ensures
        r == is_blank(s@),
{
    let len = s.unicode_len();
    let mut i: usize = 0;
    while i < len
        invariant
            len == s@.len(),
            i <= len,
            forall|j: int| 0 <= j < i ==> is_space_char(#[trigger] s@[j]),
        decreases len - i,
    {
        let c = s.get_char(i);
        if !char_is_space(c) {
            return false;
        }
        i = i + 1;
    }
    true
}

/// Decides the outcome of a batched in-place coordinate transform. Native
/// success is success. Native failure becomes the coordinate-range error,
/// always carrying both system identities, and carrying the engine's
/// drained last-error text only when that text is not blank — some engine
/// failures set no message, and a blank one is dropped rather than papered
/// over with a placeholder.
pub fn transform_outcome(native_ok: bool, from: &str, to: &str, diagnostic: &str) -> (r: Result<
    (),
    ErrorKind,
>)
    ensures
        r is Ok <==> native_ok,
        r matches Err(e) ==> e matches ErrorKind::InvalidCoordinateRange { from: f, to: t, msg }
            && f@ == from@ && t@ == to@ && (if is_blank(diagnostic@) {
            msg is None
        } else {
            msg matches Some(m) && m@ == diagnostic@
        }),
{
    if native_ok {
        Ok(())
    } else {
        let msg = if str_is_blank(diagnostic) {
            None
        } else {
            Some(diagnostic.to_owned())
        };
        Err(ErrorKind::InvalidCoordinateRange { from: from.to_owned(), to: to.to_owned(), msg })
    }
}

/// The display identity of a reference system for transform diagnostics:
/// the authority identity when the authority lookup succeeded, else
/// whatever the legacy projection-string export produced — its text on
/// success, its error on failure.
pub fn choose_identity(authority: Result<String, ErrorKind>, fallback: Result<
    String,
    ErrorKind,
>) -> (r: Result<String, ErrorKind>)
    ensures
        authority is Ok ==> r == authority,
        authority is Err ==> r == fallback,
{
    match authority {
        Ok(s) => Ok(s),
        Err(_) => fallback,
    }
}

} // verus!
