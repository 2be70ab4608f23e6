use vstd::prelude::*;

verus! {

/// The bytes that gzip decompression of `b` yields, or `None` when `b` is
/// not a well-formed gzip stream.
pub uninterp spec fn gunzip_of(b: Seq<u8>) -> Option<Seq<u8>>;

/// Whether `b` opens with the two identification bytes of a gzip member.
pub open spec fn has_gzip_magic(b: Seq<u8>) -> bool {
    b.len() >= 2 && b[0] == 0x1f && b[1] == 0x8b
}

/// What the fail-open decompressor makes of `b`: the gzip payload where `b`
/// is a gzip stream, `b` itself otherwise.
pub open spec fn decompressed(b: Seq<u8>) -> Seq<u8> {
    match gunzip_of(b) {
        Some(d) => d,
        None => b,
    }
}

/// Relies on flate2's `read::GzDecoder` read to the end over an in-memory
/// slice: the outcome depends on the bytes alone, and a buffer that does not
/// open with the gzip identification bytes is refused by the header parser.
#[verifier::external_body]
fn gunzip(b: &[u8]) -> (r: Option<Vec<u8>>)
    ensures
        r matches Some(d) ==> gunzip_of(b@) == Some(d@),
        r is None ==> gunzip_of(b@) is None,
        !has_gzip_magic(b@) ==> r is None,
{
    let mut out = Vec::new();
    match std::io::Read::read_to_end(&mut flate2::read::GzDecoder::new(b), &mut out) {
        Ok(_) => Some(out),
        Err(_) => None,
    }
}

/// Relies on flate2's `write::GzEncoder` over a `Vec<u8>`: what it writes is a
/// gzip stream whose decompression gives back the bytes written.
#[verifier::external_body]
fn gzip(b: &[u8]) -> (r: Option<Vec<u8>>)
    ensures
        r matches Some(c) ==> gunzip_of(c@) == Some(b@),
{
    let mut enc = flate2::write::GzEncoder::new(Vec::new(), flate2::Compression::default());
    match std::io::Write::write_all(&mut enc, b) {
        Ok(()) => enc.finish().ok(),
        Err(_) => None,
    }
}

/// Fail-open decompression: the gzip payload of `buf` when `buf` is a gzip
/// stream, otherwise an unchanged copy of `buf`.
pub fn decompress(buf: &[u8]) -> (r: Vec<u8>)
    ensures
        r@ == decompressed(buf@),
        gunzip_of(buf@) is None ==> r@ == buf@,
        !has_gzip_magic(buf@) ==> r@ == buf@,
{
    match gunzip(buf) {
        Some(d) => d,
        None => vstd::slice::slice_to_vec(buf),
    }
}

/// Gzip-compresses `buf`. Whenever a stream comes back, decompressing it
/// gives `buf` again.
pub fn compress(buf: &[u8]) -> (r: Option<Vec<u8>>)
    ensures
        r matches Some(c) ==> gunzip_of(c@) == Some(buf@) && decompressed(c@) == buf@,
{
    gzip(buf)
}

/// Decompressing a gzip stream of `b` gives `b` back.
pub proof fn lemma_decompress_inverts_gzip(c: Seq<u8>, b: Seq<u8>)
    requires
        gunzip_of(c) == Some(b),
    ensures
        decompressed(c) == b,
{
}

/// A buffer that is not a gzip stream passes through the decompressor
/// unchanged, so decompressing it again changes nothing either.
pub proof fn lemma_fail_open_is_identity(b: Seq<u8>)
    requires
        gunzip_of(b) is None,
    ensures
        decompressed(b) == b,
        decompressed(decompressed(b)) == b,
{
}

} // verus!
