//! Materialization: re-encoding fetched image bytes as PNG.

use vstd::prelude::*;
use crate::error::ComicError;
use crate::fetch::MaterializationJob;

verus! {

/// What re-encoding a byte buffer as PNG yields: the PNG serialization of
/// the decoded bitmap when the buffer is decodable by the codec library,
/// nothing otherwise.
pub uninterp spec fn png_transcode(input: Seq<u8>) -> Option<Seq<u8>>;

/// Relies on `image::io::Reader::with_guessed_format` (format sniffing
/// from byte content, not from any name), `image::io::Reader::decode` and
/// `image::DynamicImage::write_to` with PNG output: decodes the buffer
/// and re-encodes the bitmap as PNG; the result depends on the input
/// bytes alone.
#[verifier::external_body]
fn transcode_png(input: &Vec<u8>) -> (r: Option<Vec<u8>>)
    ensures
        (r is Some) == (png_transcode(input@) is Some),
        r matches Some(p) ==> Some(p@) == png_transcode(input@),
{
    let reader = image::io::Reader::new(std::io::Cursor::new(input.as_slice()));
    let reader = match reader.with_guessed_format() {
        Ok(r) => r,
        Err(_) => return None,
    };
    let img = match reader.decode() {
        Ok(i) => i,
        Err(_) => return None,
    };
    let mut out = std::io::Cursor::new(Vec::new());
    match img.write_to(&mut out, image::ImageOutputFormat::Png) {
        Ok(()) => Some(out.into_inner()),
        Err(_) => None,
    }
}

/// Materializes one fetched image: decodes the job's raw bytes, sniffing
/// the input format from content, and returns the PNG re-encoding
/// together with the destination path it is to be written at; an
/// undecodable or unencodable buffer is a codec failure.
pub fn materialize(job: MaterializationJob) -> (r: Result<(Vec<u8>, String), ComicError>)
    ensures
        r is Ok <==> png_transcode(job.raw_bytes@) is Some,
        r matches Ok(p) ==> Some(p.0@) == png_transcode(job.raw_bytes@) && p.1@
            == job.save_path@,
        r matches Err(e) ==> e == ComicError::Codec,
{
    match transcode_png(&job.raw_bytes) {
        Some(png) => Ok((png, job.save_path)),
        None => Err(ComicError::Codec),
    }
}

} // verus!
