//! The single-item decoder: open a source, pick its format (extension hint
//! first, content sniffing as the fallback), decode, and normalize to RGB.
//! The codec calls themselves go to the image crate through trusted wrappers;
//! everything around them is verified. Which formats actually decode depends
//! on the codec set the image crate is built with: a format the resolver
//! names but the build lacks — AVIF here, whose native decoder is not
//! available — fails as a source error.

use vstd::prelude::*;
use crate::format::FormatHint;
use crate::format::resolve_format_hint;
use crate::format::spec_resolve_format_hint;
use crate::outcome::DecodeFailure;
use crate::outcome::DecodeOutcome;
use crate::outcome::DecodedImage;
use crate::outcome::FailureKind;

verus! {

/// The image crate's format tag, used only to hand a resolved hint on to its
/// decode calls.
#[verifier::external_type_specification]
#[verifier::external_body]
pub struct ExImageFormat(image::ImageFormat);

/// Relies on image::ImageFormat's variants: maps each known hint to the image
/// crate's value for the same format. Callers rule `Unknown` out.
#[verifier::external_body]
fn image_format_of(hint: FormatHint) -> image::ImageFormat
    requires
        hint != FormatHint::Unknown,
{
    match hint {
        FormatHint::Avif => image::ImageFormat::Avif,
        FormatHint::Jpeg => image::ImageFormat::Jpeg,
        FormatHint::Png => image::ImageFormat::Png,
        FormatHint::Webp => image::ImageFormat::WebP,
        FormatHint::Gif => image::ImageFormat::Gif,
        FormatHint::Tiff => image::ImageFormat::Tiff,
        // `Unknown` cannot reach this call, so only `Bmp` is left.
        _ => image::ImageFormat::Bmp,
    }
}

/// Relies on image::ImageReader::open, ImageReader::set_format and
/// ImageReader::decode, followed by DynamicImage::to_rgb8,
/// ImageBuffer::dimensions and ImageBuffer::into_raw: opens the file at
/// `path`, declares `hint`'s format for it without reading content, decodes,
/// and converts to RGB. The reader holds an open file handle and the decoded
/// image is opaque in between, so the calls stand together behind this one
/// boundary. An open failure is an I/O failure; a decode failure is a source
/// failure; either diagnostic, the error's display form, is non-empty. A
/// success is the decode's RGB parts, whose buffer holds exactly
/// `width * height * 3` one-byte samples — decoders allocate exactly the
/// pixel bytes, and the color-space cast yields one pixel per coordinate.
/// What comes back depends on what is on disk, so nothing more is stated.
#[verifier::external_body]
fn decode_file_with_format(path: &str, hint: FormatHint) -> (r: Result<
    (Vec<u8>, u32, u32),
    DecodeFailure,
>)
    requires
        hint != FormatHint::Unknown,
    ensures
        r matches Ok(p) ==> p.0@.len() == p.1 as int * p.2 as int * 3,
        r matches Err(f) ==> f.message@.len() > 0,
{
    let mut reader = match image::ImageReader::open(path) {
        Ok(r) => r,
        Err(e) => return Err(DecodeFailure { kind: FailureKind::IoError, message: format!("{}", e) }),
    };
    reader.set_format(image_format_of(hint));
    let img = match reader.decode() {
        Ok(i) => i,
        Err(e) => return Err(DecodeFailure { kind: FailureKind::SourceError, message: format!("{}", e) }),
    };
    let rgb = img.to_rgb8();
    let (width, height) = rgb.dimensions();
    Ok((rgb.into_raw(), width, height))
}

/// Relies on image::ImageReader::open, ImageReader::with_guessed_format and
/// ImageReader::decode, followed by DynamicImage::to_rgb8,
/// ImageBuffer::dimensions and ImageBuffer::into_raw: opens the file at
/// `path`, sniffs its format from the leading content bytes, decodes, and
/// converts to RGB. Open and sniff failures are I/O failures; an unrecognized
/// signature or corrupt content is a source failure; either diagnostic is
/// non-empty. A success is the decode's RGB parts with the exact
/// `width * height * 3` buffer, as above. What comes back depends on what is
/// on disk, so nothing more is stated.
#[verifier::external_body]
fn decode_file_sniffed(path: &str) -> (r: Result<(Vec<u8>, u32, u32), DecodeFailure>)
    ensures
        r matches Ok(p) ==> p.0@.len() == p.1 as int * p.2 as int * 3,
        r matches Err(f) ==> f.message@.len() > 0,
{
    let reader = match image::ImageReader::open(path) {
        Ok(r) => r,
        Err(e) => return Err(DecodeFailure { kind: FailureKind::IoError, message: format!("{}", e) }),
    };
    let reader = match reader.with_guessed_format() {
        Ok(r) => r,
        Err(e) => return Err(DecodeFailure { kind: FailureKind::IoError, message: format!("{}", e) }),
    };
    let img = match reader.decode() {
        Ok(i) => i,
        Err(e) => return Err(DecodeFailure { kind: FailureKind::SourceError, message: format!("{}", e) }),
    };
    let rgb = img.to_rgb8();
    let (width, height) = rgb.dimensions();
    Ok((rgb.into_raw(), width, height))
}

/// Whether decoding `bytes` as `hint`'s named format yields an image. Applied
/// only for the known hints: their decode path runs the named built-in codec
/// and consults no process-global state, so the result is a function of the
/// arguments alone and every call answers this name alike.
pub uninterp spec fn mem_decode_ok(bytes: Seq<u8>, hint: FormatHint) -> bool;

/// The (width, height) of the image decoded from `bytes` under `hint`'s named
/// format; applied only for the known hints, and meaningful where
/// `mem_decode_ok` holds.
pub uninterp spec fn mem_decode_dims(bytes: Seq<u8>, hint: FormatHint) -> (u32, u32);

/// Relies on image::load_from_memory_with_format, followed by
/// DynamicImage::to_rgb8, ImageBuffer::dimensions and ImageBuffer::into_raw:
/// decodes an in-memory buffer as `hint`'s named format. This path runs the
/// built-in codec for that format and consults no process-global hook, so
/// whether the parse succeeds and which dimensions come out are functions of
/// the arguments alone and carry the names above, which cover the composite
/// (the decoded image is opaque in between). Pixel content is not named,
/// since the codecs do not promise it bit-stable across machines. The RGB
/// buffer holds exactly `width * height * 3` samples; every failure is a
/// source failure with a non-empty diagnostic.
#[verifier::external_body]
fn decode_memory_with_format(bytes: &Vec<u8>, hint: FormatHint) -> (r: Result<
    (Vec<u8>, u32, u32),
    DecodeFailure,
>)
    requires
        hint != FormatHint::Unknown,
    ensures
        r is Ok <==> mem_decode_ok(bytes@, hint),
        r matches Ok(p) ==> ((p.1, p.2) == mem_decode_dims(bytes@, hint)),
        r matches Ok(p) ==> p.0@.len() == p.1 as int * p.2 as int * 3,
        r matches Err(f) ==> f.kind == FailureKind::SourceError && f.message@.len() > 0,
{
    let decoded = match image::load_from_memory_with_format(bytes.as_slice(), image_format_of(hint)) {
        Ok(img) => img,
        Err(e) => return Err(DecodeFailure { kind: FailureKind::SourceError, message: format!("{}", e) }),
    };
    let rgb = decoded.to_rgb8();
    let (width, height) = rgb.dimensions();
    Ok((rgb.into_raw(), width, height))
}

/// Relies on image::load_from_memory, followed by DynamicImage::to_rgb8,
/// ImageBuffer::dimensions and ImageBuffer::into_raw: sniffs the format of an
/// in-memory buffer from its content signature and decodes it. Which decoder
/// sniffing selects can depend on the image crate's process-global hook
/// registries, so the result carries no name: only what holds of every
/// outcome is stated — the exact `width * height * 3` buffer on success, and
/// a source failure with a non-empty diagnostic otherwise.
#[verifier::external_body]
fn decode_memory_sniffed(bytes: &Vec<u8>) -> (r: Result<(Vec<u8>, u32, u32), DecodeFailure>)
    ensures
        r matches Ok(p) ==> p.0@.len() == p.1 as int * p.2 as int * 3,
        r matches Err(f) ==> f.kind == FailureKind::SourceError && f.message@.len() > 0,
{
    let decoded = match image::load_from_memory(bytes.as_slice()) {
        Ok(img) => img,
        Err(e) => return Err(DecodeFailure { kind: FailureKind::SourceError, message: format!("{}", e) }),
    };
    let rgb = decoded.to_rgb8();
    let (width, height) = rgb.dimensions();
    Ok((rgb.into_raw(), width, height))
}

/// Shape one raw decode result into the outcome for its item: a success is
/// packaged as exactly the decode's RGB parts, a failure is kept as it was
/// reported.
fn outcome_of(raw: Result<(Vec<u8>, u32, u32), DecodeFailure>) -> (r: DecodeOutcome)
    requires
        raw matches Ok(p) ==> p.0@.len() == p.1 as int * p.2 as int * 3,
        raw matches Err(f) ==> f.message@.len() > 0,
    ensures
        r.wf(),
        r matches DecodeOutcome::Image(img) ==> (raw matches Ok(p) && img.data@ == p.0@
            && img.width == p.1 && img.height == p.2),
        raw matches Ok(p) ==> r matches DecodeOutcome::Image(img) && img.data@ == p.0@
            && img.width == p.1 && img.height == p.2,
        r matches DecodeOutcome::Failure(f) ==> (raw matches Err(g) && f == g),
        raw matches Err(g) ==> r matches DecodeOutcome::Failure(f) && f == g,
{
    match raw {
        Ok((data, width, height)) => DecodeOutcome::Image(DecodedImage { data, width, height }),
        Err(f) => DecodeOutcome::Failure(f),
    }
}

/// Decode the file at `path` into a normalized RGB buffer: resolve the format
/// from the extension first and declare it when known, fall back to content
/// sniffing otherwise, then decode and convert. Every failure comes back as a
/// typed value with a non-empty diagnostic; a success always carries a
/// well-formed image.
pub fn decode_one(path: &str) -> (r: DecodeOutcome)
    ensures
        r.wf(),
{
    let hint = resolve_format_hint(path);
    let raw = if hint == FormatHint::Unknown {
        decode_file_sniffed(path)
    } else {
        decode_file_with_format(path, hint)
    };
    outcome_of(raw)
}

/// Decode an in-memory byte buffer, declaring `hint`'s format when it is
/// known and sniffing the content signature otherwise. No file is touched.
/// For a known hint the call succeeds exactly where decoding these bytes as
/// that format succeeds, and a success carries exactly the decoded
/// dimensions; for `Unknown` the sniffing decoder's selection may consult the
/// image crate's process-global hooks, so only the structural facts are
/// stated. Every failure is a source failure with a non-empty diagnostic,
/// and a success always carries a well-formed image.
pub fn decode_bytes(bytes: &Vec<u8>, hint: FormatHint) -> (r: DecodeOutcome)
    ensures
        r.wf(),
        hint != FormatHint::Unknown ==> (r is Image <==> mem_decode_ok(bytes@, hint)),
        hint != FormatHint::Unknown ==> (r matches DecodeOutcome::Image(img) ==> ((img.width,
        img.height) == mem_decode_dims(bytes@, hint))),
        r matches DecodeOutcome::Failure(f) ==> f.kind == FailureKind::SourceError,
{
    let raw = if hint == FormatHint::Unknown {
        decode_memory_sniffed(bytes)
    } else {
        decode_memory_with_format(bytes, hint)
    };
    outcome_of(raw)
}

} // verus!
