use vstd::prelude::*;
use clipboard_rs::common::RustImage;
use clipboard_rs::RustImageData;
use image::{DynamicImage, ImageFormat};
use crate::fingerprint::{fingerprint_of, hash_bytes_short_sha256_hex5, is_lower_hex};
use crate::location::{downloads_dir, downloads_dir_of, extension_of, file_name, join, join_path};

verus! {

/// clipboard_rs's image as read from the clipboard, carried through unopened.
#[verifier::external_type_specification]
#[verifier::external_body]
pub struct ExRustImageData(RustImageData);

/// image's decoded image, carried from the decoder to the encoder unopened.
#[verifier::external_type_specification]
#[verifier::external_body]
pub struct ExDynamicImage(DynamicImage);

/// JPEG quality of lossy output, on the scale 1 to 100.
pub const LOSSY_QUALITY: u8 = 85;

/// Why the clipboard yielded no image.
#[derive(Debug)]
pub enum ClipboardFailure {
    /// The platform clipboard could not be opened; holds the platform's words.
    Unavailable(String),
    /// The clipboard holds no image.
    NoImage,
}

/// Why a capture failed.
#[derive(Debug)]
pub enum CaptureError {
    /// The platform clipboard could not be opened.
    ClipboardAccess(String),
    /// The clipboard holds no image.
    NoImage,
    /// The image could not be encoded or decoded; holds the full description.
    Codec(String),
    /// The file could not be written; holds the full description.
    Filesystem(String),
}

impl CaptureError {
    /// The description shown to the user.
    pub fn message(&self) -> (r: String)
        ensures
            self is ClipboardAccess ==> r@ == "Failed to create clipboard context: "@
                + self->ClipboardAccess_0@,
            self is NoImage ==> r@ == "No image found in clipboard"@,
            self is Codec ==> r@ == self->Codec_0@,
            self is Filesystem ==> r@ == self->Filesystem_0@,
    {
        match self {
            CaptureError::ClipboardAccess(d) => String::from_str(
                "Failed to create clipboard context: ",
            ).concat(d.as_str()),
            CaptureError::NoImage => String::from_str("No image found in clipboard"),
            CaptureError::Codec(d) => d.clone(),
            CaptureError::Filesystem(d) => d.clone(),
        }
    }
}

/// A file to be written: where, and with which bytes.
#[derive(Debug)]
pub struct SavePlan {
    /// The file to create, or to truncate if it exists.
    pub path: String,
    /// The file's whole content.
    pub bytes: Vec<u8>,
}

/// The home directory as a sequence of characters, when there is one.
pub open spec fn home_view(home: Option<&str>) -> Option<Seq<char>> {
    match home {
        Some(h) => Some(h@),
        None => None,
    }
}

/// The path of the file that receives an image whose canonical bytes are
/// `canonical`: the fingerprint of those bytes inside the downloads
/// directory, with the extension of the chosen format.
pub open spec fn capture_path(
    home: Option<Seq<char>>,
    canonical: Seq<u8>,
    lossless: bool,
) -> Seq<char> {
    join(downloads_dir_of(home), fingerprint_of(canonical)) + extension_of(lossless)
}

/// What clipboard_rs's `RustImage::to_png` gives for an image: its PNG
/// encoding in RGBA, or the text of the failure.
pub uninterp spec fn png_of(img: RustImageData) -> Result<Seq<u8>, Seq<char>>;

/// What image's `load_from_memory_with_format` gives for PNG bytes: the
/// decoded image, or the text of the failure.
pub uninterp spec fn decoded_of(bytes: Seq<u8>) -> Result<DynamicImage, Seq<char>>;

/// What image's `JpegEncoder` at `quality` gives for an image: the JPEG
/// bytes, or the text of the failure.
pub uninterp spec fn jpeg_of(img: DynamicImage, quality: u8) -> Result<Seq<u8>, Seq<char>>;

/// A byte result seen as sequences.
pub open spec fn bytes_view(r: Result<Vec<u8>, String>) -> Result<Seq<u8>, Seq<char>> {
    match r {
        Ok(v) => Ok(v@),
        Err(e) => Err(e@),
    }
}

/// Relies on clipboard_rs's `RustImage::to_png` and `RustImageBuffer::get_bytes`:
/// the image encoded as PNG in RGBA, the encoding that names the image.
#[verifier::external_body]
fn encode_png(img: &RustImageData) -> (r: Result<Vec<u8>, String>)
    ensures
        bytes_view(r) == png_of(*img),
{
    match img.to_png() {
        Ok(buf) => Ok(buf.get_bytes().to_vec()),
        Err(e) => Err(e.to_string()),
    }
}

/// Relies on image's `load_from_memory_with_format`: decodes PNG bytes.
#[verifier::external_body]
fn decode_png(bytes: &[u8]) -> (r: Result<DynamicImage, String>)
    ensures
        match r {
            Ok(d) => decoded_of(bytes@) == Ok::<DynamicImage, Seq<char>>(d),
            Err(e) => decoded_of(bytes@) == Err::<DynamicImage, Seq<char>>(e@),
        },
{
    image::load_from_memory_with_format(bytes, ImageFormat::Png).map_err(|e| e.to_string())
}

/// Relies on image's `JpegEncoder::new_with_quality` and `encode_image`:
/// encodes an image as JPEG at `quality`.
#[verifier::external_body]
fn encode_jpeg(img: &DynamicImage, quality: u8) -> (r: Result<Vec<u8>, String>)
    ensures
        bytes_view(r) == jpeg_of(*img, quality),
{
    let mut out: Vec<u8> = Vec::new();
    let mut encoder = image::codecs::jpeg::JpegEncoder::new_with_quality(&mut out, quality);
    match encoder.encode_image(img) {
        Ok(()) => Ok(out),
        Err(e) => Err(e.to_string()),
    }
}

/// The lossy re-encoding of canonical PNG bytes: decoded, then encoded as
/// JPEG at the fixed quality; or the description of the step that failed.
pub open spec fn lossy_of(canonical: Seq<u8>) -> Result<Seq<u8>, Seq<char>> {
    match decoded_of(canonical) {
        Err(e) => Err("Failed to load image: "@ + e),
        Ok(d) => match jpeg_of(d, LOSSY_QUALITY) {
            Err(e) => Err("Failed to encode JPEG: "@ + e),
            Ok(j) => Ok(j),
        },
    }
}

/// Whether a byte result is the expected outcome, every failure being a
/// codec error with the expected description.
pub open spec fn bytes_match(r: Result<Vec<u8>, CaptureError>, expected: Result<Seq<u8>, Seq<char>>) -> bool {
    match r {
        Ok(v) => expected == Ok::<Seq<u8>, Seq<char>>(v@),
        Err(e) => e is Codec && expected == Err::<Seq<u8>, Seq<char>>(e->Codec_0@),
    }
}

/// Decodes canonical PNG bytes and encodes the image again as JPEG at the
/// fixed lossy quality. Every failure is a codec error.
pub fn reencode_lossy(canonical: &[u8]) -> (r: Result<Vec<u8>, CaptureError>)
    ensures
        bytes_match(r, lossy_of(canonical@)),
{
    match decode_png(canonical) {
        Err(e) => Err(CaptureError::Codec(String::from_str("Failed to load image: ").concat(e.as_str()))),
        Ok(img) => match encode_jpeg(&img, LOSSY_QUALITY) {
            Err(e) => Err(CaptureError::Codec(String::from_str("Failed to encode JPEG: ").concat(e.as_str()))),
            Ok(jpeg) => Ok(jpeg),
        },
    }
}

/// The file decided for canonical bytes, as (path, content), or the
/// description of the codec failure.
pub open spec fn plan_of(home: Option<Seq<char>>, canonical: Seq<u8>, lossless: bool) -> Result<
    (Seq<char>, Seq<u8>),
    Seq<char>,
> {
    if lossless {
        Ok((capture_path(home, canonical, true), canonical))
    } else {
        match lossy_of(canonical) {
            Ok(j) => Ok((capture_path(home, canonical, false), j)),
            Err(m) => Err(m),
        }
    }
}

/// The file decided for a clipboard image: named and filled from its PNG
/// encoding, or the description of the codec failure.
pub open spec fn capture_of(img: RustImageData, home: Option<Seq<char>>, lossless: bool) -> Result<
    (Seq<char>, Seq<u8>),
    Seq<char>,
> {
    match png_of(img) {
        Err(e) => Err("Failed to convert image to PNG: "@ + e),
        Ok(png) => plan_of(home, png, lossless),
    }
}

/// Whether a plan is the expected outcome, every failure being a codec error
/// with the expected description.
pub open spec fn plan_match(
    r: Result<SavePlan, CaptureError>,
    expected: Result<(Seq<char>, Seq<u8>), Seq<char>>,
) -> bool {
    match r {
        Ok(p) => expected == Ok::<(Seq<char>, Seq<u8>), Seq<char>>((p.path@, p.bytes@)),
        Err(e) => e is Codec && expected == Err::<(Seq<char>, Seq<u8>), Seq<char>>(e->Codec_0@),
    }
}

/// Appending to a fingerprint's file name appends to the joined path.
proof fn lemma_join_extended(dir: Seq<char>, stem: Seq<char>, ext: Seq<char>)
    requires
        stem.len() > 0,
        stem[0] != '/',
    ensures
        join(dir, stem + ext) == join(dir, stem) + ext,
{
    assert((stem + ext)[0] == stem[0]);
    if dir.len() == 0 || dir.last() == '/' {
        assert(dir + (stem + ext) =~= (dir + stem) + ext);
    } else {
        assert(dir + seq!['/'] + (stem + ext) =~= (dir + seq!['/'] + stem) + ext);
    }
}

/// Decides the file for an image whose canonical bytes are `canonical`.
///
/// The name always comes from the canonical bytes, whatever the format. When
/// `lossless`, the file receives the canonical bytes themselves and this
/// never fails; otherwise it receives their JPEG re-encoding at the fixed
/// quality, and fails, with a codec error, exactly when decoding or encoding
/// does.
pub fn save_plan(canonical: Vec<u8>, home: Option<&str>, lossless: bool) -> (r: Result<SavePlan, CaptureError>)
    ensures
        plan_match(r, plan_of(home_view(home), canonical@, lossless)),
        r is Ok ==> r->Ok_0.path@ == capture_path(home_view(home), canonical@, lossless),
        lossless ==> r is Ok && r->Ok_0.bytes@ == canonical@,
{
    let stem = hash_bytes_short_sha256_hex5(canonical.as_slice());
    let dir = downloads_dir(home);
    let name = file_name(stem.as_str(), lossless);
    let path = join_path(dir.as_str(), name.as_str());
    proof {
        assert(is_lower_hex(stem@[0]));
        lemma_join_extended(dir@, stem@, extension_of(lossless));
    }
    if lossless {
        Ok(SavePlan { path, bytes: canonical })
    } else {
        match reencode_lossy(canonical.as_slice()) {
            Ok(jpeg) => Ok(SavePlan { path, bytes: jpeg }),
            Err(e) => Err(e),
        }
    }
}

/// Turns what the clipboard yielded into the file to write.
///
/// A clipboard failure is reported as such and nothing is encoded. Otherwise
/// the image is encoded as PNG, and the file is decided from those canonical
/// bytes as `save_plan` does; a failure of the PNG encoding is a codec error.
pub fn capture_clipboard_image(
    clip: Result<RustImageData, ClipboardFailure>,
    home: Option<&str>,
    lossless: bool,
) -> (r: Result<SavePlan, CaptureError>)
    ensures
        clip matches Err(ClipboardFailure::Unavailable(d)) ==> r matches Err(
            CaptureError::ClipboardAccess(e),
        ) && e@ == d@,
        clip matches Err(ClipboardFailure::NoImage) ==> r matches Err(CaptureError::NoImage),
        clip matches Ok(img) ==> plan_match(r, capture_of(img, home_view(home), lossless)),
{
    match clip {
        Err(ClipboardFailure::Unavailable(d)) => Err(CaptureError::ClipboardAccess(d)),
        Err(ClipboardFailure::NoImage) => Err(CaptureError::NoImage),
        Ok(img) => match encode_png(&img) {
            Err(e) => Err(
                CaptureError::Codec(
                    String::from_str("Failed to convert image to PNG: ").concat(e.as_str()),
                ),
            ),
            Ok(canonical) => save_plan(canonical, home, lossless),
        },
    }
}

/// Saving one image once losslessly and once lossily gives two paths that
/// share the directory and the fingerprint stem and differ in the extension.
pub proof fn lemma_format_keeps_stem(home: Option<Seq<char>>, canonical: Seq<u8>)
    ensures
        capture_path(home, canonical, true) == join(downloads_dir_of(home), fingerprint_of(canonical))
            + ".png"@,
        capture_path(home, canonical, false) == join(downloads_dir_of(home), fingerprint_of(canonical))
            + ".jpg"@,
        capture_path(home, canonical, true) != capture_path(home, canonical, false),
        plan_of(home, canonical, true) is Ok,
        plan_of(home, canonical, true)->Ok_0.0 == capture_path(home, canonical, true),
        plan_of(home, canonical, false) is Ok ==> plan_of(home, canonical, false)->Ok_0.0
            == capture_path(home, canonical, false),
{
    reveal_strlit(".png");
    reveal_strlit(".jpg");
    let base = join(downloads_dir_of(home), fingerprint_of(canonical));
    let a = capture_path(home, canonical, true);
    let b = capture_path(home, canonical, false);
    assert(a[base.len() + 1int] == 'p');
    assert(b[base.len() + 1int] == 'j');
}

} // verus!
