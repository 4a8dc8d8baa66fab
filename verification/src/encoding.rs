use vstd::prelude::*;

use crate::errors::ErrorKind;
use vstd::string::StringSliceAdditionalSpecFns;

verus! {

/// Whether a byte sequence holds a NUL byte anywhere; such a sequence cannot
/// be embedded as a native C string.
pub open spec fn bytes_contain_nul(s: Seq<u8>) -> bool {
    exists|i: int| 0 <= i < s.len() && s[i] == 0u8
}

/// Checks that `s` can be handed to a native C API as a NUL-terminated
/// string: it succeeds exactly when the UTF-8 bytes of `s` hold no embedded
/// NUL byte.
pub fn check_c_string(s: &str) -> (r: Result<(), ErrorKind>)
    ensures
        r is Ok <==> !bytes_contain_nul(s.spec_bytes()),
        r matches Err(e) ==> e is Encoding,
{
    let bytes = s.as_bytes();
    let n = bytes.len();
    let mut i: usize = 0;
    while i < n
        invariant
            n == bytes@.len(),
            i <= n,
            bytes@ == s.spec_bytes(),
            forall|j: int| 0 <= j < i ==> bytes@[j] != 0u8,
        decreases n - i,
    {
        if bytes[i] == 0u8 {
            return Err(ErrorKind::Encoding);
        }
        i = i + 1;
    }
    Ok(())
}

} // verus!
