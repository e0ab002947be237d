//! Trusted boundary around the flate2 encoders.
//!
//! The sink logic never looks inside an encoder; everything it knows about
//! one is stated here, over three uninterpreted spec functions per encoder
//! kind: the bytes fed to it so far, the compression level it was built
//! with, and whether it is still accepting input.

use vstd::prelude::*;

use crate::sink::SinkError;

verus! {

/// A flate2 gzip encoder over an in-memory buffer. Opaque to the verifier:
/// everything the sink logic knows of one is what `gz_fed`, `gz_level` and
/// `gz_live` say below.
#[verifier::external_body]
pub struct GzStream {
    enc: flate2::write::GzEncoder<Vec<u8>>,
}

/// A flate2 zlib encoder over an in-memory buffer, opaque in the same way.
#[verifier::external_body]
pub struct ZlibStream {
    enc: flate2::write::ZlibEncoder<Vec<u8>>,
}

/// The bytes a gzip encoder has been fed so far, in order.
pub uninterp spec fn gz_fed(e: GzStream) -> Seq<u8>;

/// The compression level a gzip encoder was built with.
pub uninterp spec fn gz_level(e: GzStream) -> u32;

/// Whether a gzip encoder is still accepting input (its stream has not
/// been finished).
pub uninterp spec fn gz_live(e: GzStream) -> bool;

/// The bytes a zlib encoder has been fed so far, in order.
pub uninterp spec fn zl_fed(e: ZlibStream) -> Seq<u8>;

/// The compression level a zlib encoder was built with.
pub uninterp spec fn zl_level(e: ZlibStream) -> u32;

/// Whether a zlib encoder is still accepting input.
pub uninterp spec fn zl_live(e: ZlibStream) -> bool;

/// The complete gzip stream that a gzip encoder at the given level produces
/// over the given input bytes. With this flate2 backend the stream is a
/// function of the input and the level alone: the header flate2 writes is
/// fixed (its timestamp field is zero and its platform byte is a constant
/// chosen for reproducibility) and the deflate body is deterministic.
pub uninterp spec fn gzip_of(data: Seq<u8>, level: u32) -> Seq<u8>;

/// What decoding a byte sequence as a gzip stream yields: the decoded
/// payload, or nothing when the sequence is not a well-formed gzip stream.
pub uninterp spec fn gunzip_of(stream: Seq<u8>) -> Option<Seq<u8>>;

/// The complete zlib stream that a zlib encoder at the given level produces
/// over the given input bytes; deterministic for the same reason as
/// `gzip_of`.
pub uninterp spec fn zlib_of(data: Seq<u8>, level: u32) -> Seq<u8>;

/// What decoding a byte sequence as a zlib stream yields.
pub uninterp spec fn unzlib_of(stream: Seq<u8>) -> Option<Seq<u8>>;

/// Relies on flate2::write::GzEncoder::new and flate2::Compression::new:
/// builds a gzip encoder over a fresh in-memory buffer, at the given level,
/// that has been fed nothing yet. On the documented 0-9 level scale
/// construction cannot fail; levels above that trip a debug assertion
/// inside flate2, so they are excluded here.
#[verifier::external_body]
pub(crate) fn gz_new(level: u32) -> (e: GzStream)
    requires
        level <= 9,
    ensures
        gz_fed(e) == Seq::<u8>::empty(),
        gz_level(e) == level,
        gz_live(e),
{
    GzStream { enc: flate2::write::GzEncoder::new(Vec::new(), flate2::Compression::new(level)) }
}

/// Relies on std::io::Write::write_all on flate2::write::GzEncoder: on
/// success the whole slice has been fed to the encoder, after everything fed
/// before; on failure nothing is known of the encoder's state.
#[verifier::external_body]
pub(crate) fn gz_write(e: &mut GzStream, data: &[u8]) -> (r: Result<
    (),
    SinkError,
>)
    requires
        gz_live(*old(e)),
    ensures
        r is Ok ==> gz_fed(*final(e)) == gz_fed(*old(e)) + data@,
        r is Ok ==> gz_level(*final(e)) == gz_level(*old(e)),
        r is Ok ==> gz_live(*final(e)),
{
    match std::io::Write::write_all(&mut e.enc, data) {
        Ok(()) => Ok(()),
        Err(_) => Err(SinkError::Io),
    }
}

/// Relies on flate2::write::GzEncoder::finish: writes the gzip trailer and
/// hands back the underlying buffer, which then holds the complete gzip
/// stream of the bytes fed to the encoder, produced at the encoder's level.
/// That stream is never empty: flate2 always writes the fixed header and the
/// checksum-and-length trailer, even over no input. Relies on flate2's gzip
/// coding being lossless: decoding that stream (as flate2::read::GzDecoder
/// does) yields exactly the bytes that were fed.
#[verifier::external_body]
pub(crate) fn gz_finish(e: GzStream) -> (r: Result<Vec<u8>, SinkError>)
    requires
        gz_live(e),
    ensures
        r is Ok ==> r->Ok_0@ == gzip_of(gz_fed(e), gz_level(e)),
        r is Ok ==> gunzip_of(r->Ok_0@) == Some(gz_fed(e)),
        r is Ok ==> r->Ok_0@.len() > 0,
{
    match e.enc.finish() {
        Ok(v) => Ok(v),
        Err(_) => Err(SinkError::Io),
    }
}

/// Relies on flate2::write::ZlibEncoder::new and flate2::Compression::new:
/// builds a zlib encoder over a fresh in-memory buffer, at the given level,
/// that has been fed nothing yet. On the documented 0-9 level scale
/// construction cannot fail; levels above that trip a debug assertion
/// inside flate2, so they are excluded here.
#[verifier::external_body]
pub(crate) fn zl_new(level: u32) -> (e: ZlibStream)
    requires
        level <= 9,
    ensures
        zl_fed(e) == Seq::<u8>::empty(),
        zl_level(e) == level,
        zl_live(e),
{
    ZlibStream { enc: flate2::write::ZlibEncoder::new(Vec::new(), flate2::Compression::new(level)) }
}

/// Relies on std::io::Write::write_all on flate2::write::ZlibEncoder: on
/// success the whole slice has been fed to the encoder, after everything fed
/// before; on failure nothing is known of the encoder's state.
#[verifier::external_body]
pub(crate) fn zl_write(e: &mut ZlibStream, data: &[u8]) -> (r: Result<
    (),
    SinkError,
>)
    requires
        zl_live(*old(e)),
    ensures
        r is Ok ==> zl_fed(*final(e)) == zl_fed(*old(e)) + data@,
        r is Ok ==> zl_level(*final(e)) == zl_level(*old(e)),
        r is Ok ==> zl_live(*final(e)),
{
    match std::io::Write::write_all(&mut e.enc, data) {
        Ok(()) => Ok(()),
        Err(_) => Err(SinkError::Io),
    }
}

/// Relies on flate2::write::ZlibEncoder::finish: writes the zlib trailer and
/// hands back the underlying buffer, which then holds the complete zlib
/// stream of the bytes fed to the encoder, produced at the encoder's level.
/// That stream is never empty: the compressor itself writes the zlib header
/// and checksum trailer, even over no input. Relies on flate2's zlib coding
/// being lossless: decoding that stream (as flate2::read::ZlibDecoder does)
/// yields exactly the bytes that were fed.
#[verifier::external_body]
pub(crate) fn zl_finish(e: ZlibStream) -> (r: Result<Vec<u8>, SinkError>)
    requires
        zl_live(e),
    ensures
        r is Ok ==> r->Ok_0@ == zlib_of(zl_fed(e), zl_level(e)),
        r is Ok ==> unzlib_of(r->Ok_0@) == Some(zl_fed(e)),
        r is Ok ==> r->Ok_0@.len() > 0,
{
    match e.enc.finish() {
        Ok(v) => Ok(v),
        Err(_) => Err(SinkError::Io),
    }
}

} // verus!
