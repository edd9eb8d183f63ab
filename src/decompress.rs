use vstd::prelude::*;

use crate::error::MapError;

verus! {

/// Length of the truncated stream header that the device writes.
pub const HEADER_LEN: usize = 8;

/// The bytes that base64 text stands for (standard alphabet, padded), or
/// `None` where the text is not valid base64.
pub uninterp spec fn base64_decoded(text: Seq<char>) -> Option<Seq<u8>>;

/// The bytes that a legacy `.lzma` stream inflates to, or `None` where the
/// stream is invalid.
pub uninterp spec fn lzma_alone_decoded(stream: Seq<u8>) -> Option<Seq<u8>>;

/// Relies on base64's `general_purpose::STANDARD` engine (`Engine::decode`)
/// to decode the text.
#[verifier::external_body]
fn base64_decode(text: &str) -> (r: Option<Vec<u8>>)
    ensures
        match r {
            Some(v) => base64_decoded(text@) == Some(v@),
            None => base64_decoded(text@) is None,
        },
{
    base64::Engine::decode(&base64::engine::general_purpose::STANDARD, text).ok()
}

/// Relies on liblzma's legacy `.lzma` decoder (`Stream::new_lzma_decoder`
/// with no memory limit, read to its end through `read::XzDecoder`) to
/// inflate the stream.
#[verifier::external_body]
fn lzma_alone_decode(stream: &[u8]) -> (r: Option<Vec<u8>>)
    ensures
        match r {
            Some(v) => lzma_alone_decoded(stream@) == Some(v@),
            None => lzma_alone_decoded(stream@) is None,
        },
{
    let decoder = liblzma::stream::Stream::new_lzma_decoder(u64::MAX).ok()?;
    let mut reader = liblzma::read::XzDecoder::new_stream(std::io::Cursor::new(stream), decoder);
    let mut out = Vec::new();
    std::io::Read::read_to_end(&mut reader, &mut out).ok()?;
    Some(out)
}

/// The payload with four zero bytes after its truncated header: the header
/// then declares an unknown uncompressed size, as `.lzma` decoders expect.
pub open spec fn repaired(b: Seq<u8>) -> Seq<u8> {
    b.subrange(0, 8) + seq![0u8, 0u8, 0u8, 0u8] + b.subrange(8, b.len() as int)
}

/// What a base64 payload of the device decompresses to.
pub open spec fn decompressed(text: Seq<char>) -> Result<Seq<u8>, MapError> {
    match base64_decoded(text) {
        None => Err(MapError::Decode),
        Some(b) => if b.len() < 8 {
            Err(MapError::Format)
        } else {
            match lzma_alone_decoded(repaired(b)) {
                None => Err(MapError::Decompress),
                Some(out) => Ok(out),
            }
        },
    }
}

/// Rebuilds a full `.lzma` header from the device's truncated one; a payload
/// too short to hold that header fails with `Format`.
pub fn repair_header(bytes: &[u8]) -> (r: Result<Vec<u8>, MapError>)
    ensures
        bytes@.len() < 8 ==> r == Err::<Vec<u8>, MapError>(MapError::Format),
        bytes@.len() >= 8 ==> r is Ok && r->Ok_0@ == repaired(bytes@),
{
    if bytes.len() < HEADER_LEN {
        return Err(MapError::Format);
    }
    let mut out: Vec<u8> = Vec::new();
    for i in 0..HEADER_LEN
        invariant
            bytes@.len() >= 8,
            out@ == bytes@.subrange(0, i as int),
    {
        out.push(bytes[i]);
        assert(out@ =~= bytes@.subrange(0, i + 1));
    }
    out.push(0u8);
    out.push(0u8);
    out.push(0u8);
    out.push(0u8);
    let ghost head = out@;
    for i in HEADER_LEN..bytes.len()
        invariant
            bytes@.len() >= 8,
            8 <= i <= bytes@.len(),
            head == bytes@.subrange(0, 8) + seq![0u8, 0u8, 0u8, 0u8],
            out@ == head + bytes@.subrange(8, i as int),
    {
        out.push(bytes[i]);
        assert(out@ =~= head + bytes@.subrange(8, i + 1));
    }
    assert(out@ =~= repaired(bytes@));
    Ok(out)
}

/// Decodes base64 text, rebuilds the stream header and inflates the stream.
pub fn decompress_7z_base64_data(value: String) -> (r: Result<Vec<u8>, MapError>)
    ensures
        match r {
            Ok(v) => decompressed(value@) == Ok::<Seq<u8>, MapError>(v@),
            Err(e) => decompressed(value@) == Err::<Seq<u8>, MapError>(e),
        },
{
    let bytes = match base64_decode(value.as_str()) {
        Some(b) => b,
        None => return Err(MapError::Decode),
    };
    let stream = repair_header(bytes.as_slice())?;
    match lzma_alone_decode(stream.as_slice()) {
        Some(out) => Ok(out),
        None => Err(MapError::Decompress),
    }
}

} // verus!
