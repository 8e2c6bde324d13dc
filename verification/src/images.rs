//! Decoding images handed over as base64 data URLs.
//!
//! A data URL is split at its first comma into header and payload; the
//! image type is read from the header and the payload is decoded from
//! base64. Writing the decoded bytes to disk is the caller's work.

use vstd::prelude::*;
use vstd::string::StrSliceExecFns;

use crate::errors::Error;
use crate::strutil::{has_substring, str_contains};

verus! {

/// The bytes a base64 text encodes, if it is valid base64, as the standard
/// alphabet with padding decodes it.
pub uninterp spec fn base64_decode_of(s: Seq<char>) -> Option<Seq<u8>>;

/// Relies on the base64 crate's standard-alphabet engine: the decoded
/// bytes, a function of the text alone.
#[verifier::external_body]
pub(crate) fn base64_decode(s: &str) -> (r: Option<Vec<u8>>)
    ensures
        r is Some <==> base64_decode_of(s@) is Some,
        r matches Some(v) ==> base64_decode_of(s@) == Some(v@),
{
    base64::Engine::decode(&base64::engine::general_purpose::STANDARD, s).ok()
}

/// The file extension for an image header: the named image type, with
/// anything unrecognized stored as PNG.
pub open spec fn image_ext_of(header: Seq<char>) -> Seq<char> {
    if has_substring(header, "image/png"@) {
        "png"@
    } else if has_substring(header, "image/jpeg"@) || has_substring(header, "image/jpg"@) {
        "jpg"@
    } else if has_substring(header, "image/gif"@) {
        "gif"@
    } else if has_substring(header, "image/webp"@) {
        "webp"@
    } else {
        "png"@
    }
}

fn image_ext(header: &str) -> (r: &'static str)
    ensures
        r@ == image_ext_of(header@),
{
    if str_contains(header, "image/png") {
        "png"
    } else if str_contains(header, "image/jpeg") || str_contains(header, "image/jpg") {
        "jpg"
    } else if str_contains(header, "image/gif") {
        "gif"
    } else if str_contains(header, "image/webp") {
        "webp"
    } else {
        "png"
    }
}

/// Split a data URL at its first comma and name the image type.
///
/// The returned pieces reassemble the input around its first comma: the
/// header holds no comma, and the extension is derived from the header.
/// A URL without any comma is rejected.
pub fn parse_data_url(data_url: &str) -> (r: Result<(String, String), Error>)
    ensures
        match r {
            Ok((ext, payload)) => exists|i: int|
                {
                    &&& 0 <= i < data_url@.len()
                    &&& data_url@[i] == ','
                    &&& (forall|j: int| 0 <= j < i ==> data_url@[j] != ',')
                    &&& payload@ == data_url@.skip(i + 1)
                    &&& ext@ == image_ext_of(#[trigger] data_url@.take(i))
                },
            Err(e) => !data_url@.contains(',') && e is Other,
        },
{
    let n = data_url.unicode_len();
    let mut i: usize = 0;
    while i < n
        invariant
            n == data_url@.len(),
            0 <= i <= n,
            forall|j: int| 0 <= j < i ==> data_url@[j] != ',',
        decreases n - i,
    {
        if data_url.get_char(i) == ',' {
            let header = data_url.substring_char(0, i);
            let payload = data_url.substring_char(i + 1, n).to_owned();
            let ext = image_ext(header).to_owned();
            proof {
                let gi = i as int;
                assert(header@ =~= data_url@.take(gi));
                assert(payload@ =~= data_url@.skip(gi + 1));
                assert(0 <= gi < data_url@.len() && data_url@[gi] == ',' && (forall|j: int|
                    0 <= j < gi ==> data_url@[j] != ',') && payload@ == data_url@.skip(gi + 1)
                    && ext@ == image_ext_of(data_url@.take(gi)));
            }
            return Ok((ext, payload));
        }
        i += 1;
    }
    assert(!data_url@.contains(','));
    Err(Error::Other(String::from_str("Invalid data URL format")))
}

/// Decode a data URL into the image extension and the image bytes; invalid
/// base64 and a missing comma are rejected.
pub fn decode_data_url(data_url: &str) -> (r: Result<(String, Vec<u8>), Error>)
    ensures
        match r {
            Ok((ext, bytes)) => exists|i: int|
                {
                    &&& 0 <= i < data_url@.len()
                    &&& data_url@[i] == ','
                    &&& (forall|j: int| 0 <= j < i ==> data_url@[j] != ',')
                    &&& base64_decode_of(data_url@.skip(i + 1)) == Some(bytes@)
                    &&& ext@ == image_ext_of(#[trigger] data_url@.take(i))
                },
            Err(e) => e is Other,
        },
{
    let (ext, payload) = match parse_data_url(data_url) {
        Ok(p) => p,
        Err(e) => {
            return Err(e);
        },
    };
    match base64_decode(payload.as_str()) {
        Some(bytes) => {
            proof {
                let gi = choose|i: int|
                    {
                        &&& 0 <= i < data_url@.len()
                        &&& data_url@[i] == ','
                        &&& (forall|j: int| 0 <= j < i ==> data_url@[j] != ',')
                        &&& payload@ == data_url@.skip(i + 1)
                        &&& ext@ == image_ext_of(#[trigger] data_url@.take(i))
                    };
                assert(base64_decode_of(data_url@.skip(gi + 1)) == Some(bytes@));
            }
            Ok((ext, bytes))
        },
        None => Err(Error::Other(String::from_str("Failed to decode base64 image"))),
    }
}

} // verus!
