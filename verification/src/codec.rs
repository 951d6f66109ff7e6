use vstd::prelude::*;

verus! {

/// What gzip inflation of a byte stream yields, if it is a well-formed gzip
/// stream; decompression is a function of the input bytes alone.
pub uninterp spec fn gunzip_of(data: Seq<u8>) -> Option<Seq<u8>>;

/// What xz decompression of a byte stream yields, if it is a well-formed xz
/// stream; decompression is a function of the input bytes alone.
pub uninterp spec fn unxz_of(data: Seq<u8>) -> Option<Seq<u8>>;

/// What bzip2 decompression of a byte stream yields, if it is a well-formed
/// bzip2 stream; decompression is a function of the input bytes alone.
pub uninterp spec fn bunzip_of(data: Seq<u8>) -> Option<Seq<u8>>;

/// Relies on flate2::read::GzDecoder, read to its end with
/// std::io::Read::read_to_end: one-shot gzip inflation of an in-memory
/// buffer; success and output are a function of the input bytes alone.
#[verifier::external_body]
pub(crate) fn gunzip(data: &[u8]) -> (r: Option<Vec<u8>>)
    ensures
        r is Some <==> gunzip_of(data@) is Some,
        r matches Some(v) ==> gunzip_of(data@) == Some(v@),
{
    let mut out = Vec::new();
    let mut decoder = flate2::read::GzDecoder::new(data);
    match std::io::Read::read_to_end(&mut decoder, &mut out) {
        Ok(_) => Some(out),
        Err(_) => None,
    }
}

/// Relies on xz2::read::XzDecoder, read to its end with
/// std::io::Read::read_to_end: one-shot xz decompression of an in-memory
/// buffer; success and output are a function of the input bytes alone.
#[verifier::external_body]
pub(crate) fn unxz(data: &[u8]) -> (r: Option<Vec<u8>>)
    ensures
        r is Some <==> unxz_of(data@) is Some,
        r matches Some(v) ==> unxz_of(data@) == Some(v@),
{
    let mut out = Vec::new();
    let mut decoder = xz2::read::XzDecoder::new(data);
    match std::io::Read::read_to_end(&mut decoder, &mut out) {
        Ok(_) => Some(out),
        Err(_) => None,
    }
}

/// Relies on bzip2::read::BzDecoder, read to its end with
/// std::io::Read::read_to_end: one-shot bzip2 decompression of an in-memory
/// buffer; success and output are a function of the input bytes alone.
#[verifier::external_body]
pub(crate) fn bunzip(data: &[u8]) -> (r: Option<Vec<u8>>)
    ensures
        r is Some <==> bunzip_of(data@) is Some,
        r matches Some(v) ==> bunzip_of(data@) == Some(v@),
{
    let mut out = Vec::new();
    let mut decoder = bzip2::read::BzDecoder::new(data);
    match std::io::Read::read_to_end(&mut decoder, &mut out) {
        Ok(_) => Some(out),
        Err(_) => None,
    }
}

} // verus!
