//! The content digest used to deduplicate style records: the MD5 digest of a
//! canonical string built from the record's parts, printed as lowercase hex.

use vstd::prelude::*;

verus! {

/// The lowercase-hex MD5 digest of a string: a pure function of the input
/// characters alone.
pub uninterp spec fn md5_hex_of(s: Seq<char>) -> Seq<char>;

/// Relies on md5::compute: the MD5 digest of the input bytes, which depends
/// on the input alone, formatted as lowercase hex.
#[verifier::external_body]
pub(crate) fn md5_hex(s: &str) -> (r: String)
    ensures
        r@ == md5_hex_of(s@),
{
    format!("{:x}", md5::compute(s.as_bytes()))
}

} // verus!
