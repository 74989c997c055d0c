//! The active-version marker: a file under the install root that holds the
//! active version's name as UTF-8 text.
use vstd::prelude::*;
use vstd::utf8::{decode_utf8, encode_utf8, valid_utf8};
use crate::error::AppError;

verus! {

/// The name of the marker file under the install root.
pub const MARKER_FILE: &'static str = "version";

/// The search-path entry that puts the active version's binaries first; it
/// reads the marker each time, so it follows later changes of the marker.
pub const PATH_ENTRY: &'static str = "$HOME/.rnpm/$(cat \"$HOME/.rnpm/version\")/bin:$PATH";

/// The message of a marker that is not UTF-8 text.
pub const NOT_UTF8: &'static str = "the version marker is not valid UTF-8";

/// Relies on `String::from_utf8`: the text that valid UTF-8 bytes encode, and
/// an error on any other bytes.
#[verifier::external_body]
fn utf8_text(bytes: Vec<u8>) -> (r: Option<String>)
    ensures
        r is Some <==> valid_utf8(bytes@),
        r matches Some(s) ==> s@ == decode_utf8(bytes@),
{
    String::from_utf8(bytes).ok()
}

/// The bytes written to the marker to make `version` the active version.
pub fn marker_bytes(version: &str) -> (r: Vec<u8>)
    ensures
        r@ == encode_utf8(version@),
{
    version.as_bytes_vec()
}

/// The active version as the marker's bytes give it, verbatim.
pub fn read_marker(bytes: Vec<u8>) -> (r: Result<String, AppError>)
    ensures
        r is Ok <==> valid_utf8(bytes@),
        r matches Ok(s) ==> s@ == decode_utf8(bytes@),
        r matches Err(e) ==> e.0@ == NOT_UTF8@,
{
    match utf8_text(bytes) {
        Some(s) => Ok(s),
        None => Err(AppError::from_str(NOT_UTF8)),
    }
}

/// Writing a version to the marker and reading it back gives that version
/// exactly.
pub proof fn lemma_marker_round_trip(version: Seq<char>)
    ensures
        valid_utf8(encode_utf8(version)),
        decode_utf8(encode_utf8(version)) == version,
{
    vstd::utf8::encode_utf8_valid_utf8(version);
    vstd::utf8::encode_utf8_decode_utf8(version);
}

} // verus!
