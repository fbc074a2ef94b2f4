use vstd::prelude::*;

verus! {

use crate::errors::SolanaError;

// ---------------------------------------------------------------------------
// Field-presence checks.
//
// A required string field is missing when it is absent or trims to nothing;
// a required numeric field is missing only when it is absent.  Presence is
// always checked before any format or range check, so a request with both a
// missing field and a malformed one fails with the missing-field error.
// ---------------------------------------------------------------------------

/// Unicode whitespace, the characters `str::trim` removes.
pub open spec fn is_space(c: char) -> bool {
    let u = c as u32;
    (0x9 <= u && u <= 0xd) || u == 0x20 || u == 0x85 || u == 0xa0 || u == 0x1680 || (0x2000 <= u
        && u <= 0x200a) || u == 0x2028 || u == 0x2029 || u == 0x202f || u == 0x205f || u == 0x3000
}

/// Text that trims to nothing: every character is whitespace.
pub open spec fn blank(s: Seq<char>) -> bool {
    forall|i: int| 0 <= i < s.len() ==> is_space(s[i])
}

/// A string field is missing when absent or blank.
pub open spec fn str_missing(f: Option<String>) -> bool {
    match f {
        Option::None => true,
        Option::Some(s) => blank(s@),
    }
}

fn is_space_char(c: char) -> (r: bool)
    ensures
        r == is_space(c),
{
    let u = c as u32;
    (0x9 <= u && u <= 0xd) || u == 0x20 || u == 0x85 || u == 0xa0 || u == 0x1680 || (0x2000 <= u
        && u <= 0x200a) || u == 0x2028 || u == 0x2029 || u == 0x202f || u == 0x205f || u == 0x3000
}

/// Whether the text trims to nothing.
pub fn is_blank(s: &str) -> (r: bool)
    ensures
        r == blank(s@),
{
    let n = s.unicode_len();
    let mut i: usize = 0;
    while i < n
        invariant
            n == s@.len(),
            i <= n,
            forall|k: int| 0 <= k < i ==> is_space(s@[k]),
        decreases n - i,
    {
        if !is_space_char(s.get_char(i)) {
            return false;
        }
        i += 1;
    }
    true
}

/// Presence check for a string field: the field, or `MissingFields`.
pub fn required_str<'a>(f: &'a Option<String>) -> (r: Result<&'a String, SolanaError>)
    ensures
        r is Ok <==> !str_missing(*f),
        r matches Ok(s) ==> (f matches Some(v) && s@ == v@),
        r matches Err(e) ==> e is MissingFields,
{
    match f {
        Option::Some(s) => {
            if is_blank(s.as_str()) {
                Err(SolanaError::MissingFields)
            } else {
                Ok(s)
            }
        },
        Option::None => Err(SolanaError::MissingFields),
    }
}

/// Presence check for a 64-bit numeric field.
pub fn required_u64(f: &Option<u64>) -> (r: Result<u64, SolanaError>)
    ensures
        r is Ok <==> f is Some,
        r matches Ok(v) ==> (f matches Some(w) && v == w),
        r matches Err(e) ==> e is MissingFields,
{
    match f {
        Option::Some(v) => Ok(*v),
        Option::None => Err(SolanaError::MissingFields),
    }
}

/// Presence check for a byte-sized numeric field.
pub fn required_u8(f: &Option<u8>) -> (r: Result<u8, SolanaError>)
    ensures
        r is Ok <==> f is Some,
        r matches Ok(v) ==> (f matches Some(w) && v == w),
        r matches Err(e) ==> e is MissingFields,
{
    match f {
        Option::Some(v) => Ok(*v),
        Option::None => Err(SolanaError::MissingFields),
    }
}

} // verus!
