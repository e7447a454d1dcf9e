//! The compute half of the get-and-decompress operation: a fetched payload is
//! decoded as a single self-contained gzip stream, and the *decompressed*
//! byte count is reported. A truncated or malformed payload is rejected with
//! `DecompressionError` and no partial count.

use vstd::prelude::*;
use crate::errors::ApiError;

verus! {

/// What a byte string decompresses to as one gzip stream: `Some` of the
/// decompressed bytes when it is well-formed, `None` when it is not. The
/// result depends on the bytes alone.
pub uninterp spec fn gunzip_of(data: Seq<u8>) -> Option<Seq<u8>>;

/// Relies on flate2's `bufread::GzDecoder`, read through std's
/// `Read::read_to_end`: it decompresses a well-formed gzip stream and fails
/// on a truncated or malformed one, as a function of the input bytes alone.
#[verifier::external_body]
fn gzip_decode(data: &Vec<u8>) -> (r: Option<Vec<u8>>)
    ensures
        r matches Some(out) ==> gunzip_of(data@) == Some(out@),
        r is None ==> gunzip_of(data@) is None,
{
    let mut decoder = flate2::bufread::GzDecoder::new(data.as_slice());
    let mut out: Vec<u8> = Vec::new();
    match std::io::Read::read_to_end(&mut decoder, &mut out) {
        Ok(_) => Some(out),
        Err(_) => None,
    }
}

/// Decompresses a fetched payload and reports the byte count of the
/// decompressed content — never of the compressed input. Fails with
/// `DecompressionError`, and no partial count, exactly when the payload is
/// not one well-formed gzip stream.
pub fn decompressed_byte_count(data: &Vec<u8>) -> (r: Result<usize, ApiError>)
    ensures
        r is Ok <==> gunzip_of(data@) is Some,
        r matches Ok(n) ==> gunzip_of(data@) matches Some(out) && n == out.len(),
        r matches Err(e) ==> e == ApiError::DecompressionError,
{
    match gzip_decode(data) {
        Some(out) => Ok(out.len()),
        None => Err(ApiError::DecompressionError),
    }
}

} // verus!
