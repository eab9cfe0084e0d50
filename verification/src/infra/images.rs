//! What happens to the photos of a listing before they are uploaded: how many
//! are taken, which downloads are kept, and how an oversized photo is shrunk.

use vstd::prelude::*;

verus! {

// ─── Limits ──────────────────────────────────────────────────────────────────

/// The largest photo that is uploaded as it is: 10 MiB.
pub const MAX_SIZE_BYTES: usize = 10485760;

/// The most photos taken from one request.
pub const MAX_IMAGES_PER_REQUEST: usize = 50;

/// The most photos downloaded at the same time.
pub const MAX_CONCURRENT_DOWNLOADS: usize = 5;

/// The largest download that is decoded at all: 60 MiB.
pub const MAX_DOWNLOAD_BYTES: usize = 62914560;

/// How long a directory of downloaded photos is kept, in seconds, before a
/// clean-up removes it: five minutes.
pub const STALE_DIR_SECS: u64 = 300;

/// The JPEG quality tried first when shrinking a photo.
pub const JPEG_QUALITY_START: u8 = 90;

/// The lowest JPEG quality used.
pub const JPEG_QUALITY_MIN: u8 = 40;

/// How much the JPEG quality drops from one try to the next.
pub const JPEG_QUALITY_STEP: u8 = 10;

/// The photo locations that a request keeps: the first 50, in order.
pub fn limit_urls(urls: Vec<String>) -> (r: Vec<String>)
    ensures
        r@ == urls@.take(if urls@.len() <= MAX_IMAGES_PER_REQUEST { urls@.len() as int } else { MAX_IMAGES_PER_REQUEST as int }),
{
    let ghost given = urls@;
    let mut urls = urls;
    if urls.len() > MAX_IMAGES_PER_REQUEST {
        urls.truncate(MAX_IMAGES_PER_REQUEST);
    } else {
        assert(given.take(given.len() as int) =~= given);
    }
    urls
}

/// What becomes of a downloaded photo of `raw_size` bytes.
#[derive(Clone, Copy, Debug, PartialEq, Eq, Structural)]
pub enum DownloadAction {
    /// Too large to decode safely: dropped.
    Discard,
    /// Over the upload limit: decoded and shrunk.
    Optimize,
    /// Within the limit: decoded and re-encoded as JPEG.
    Convert,
}

/// The action for a download of `raw_size` bytes.
pub open spec fn download_action_of(raw_size: usize) -> DownloadAction {
    if raw_size > MAX_DOWNLOAD_BYTES {
        DownloadAction::Discard
    } else if raw_size > MAX_SIZE_BYTES {
        DownloadAction::Optimize
    } else {
        DownloadAction::Convert
    }
}

/// Decides what becomes of a download of `raw_size` bytes: over 60 MiB it is
/// dropped, over 10 MiB it is shrunk, otherwise it is only re-encoded.
pub fn download_action(raw_size: usize) -> (r: DownloadAction)
    ensures
        r == download_action_of(raw_size),
{
    if raw_size > MAX_DOWNLOAD_BYTES {
        DownloadAction::Discard
    } else if raw_size > MAX_SIZE_BYTES {
        DownloadAction::Optimize
    } else {
        DownloadAction::Convert
    }
}

/// Whether a clean-up removes a directory of downloaded photos that is
/// `age_secs` seconds old: only once it is older than five minutes, so that
/// the photos of a request still in progress are left alone.
pub fn is_stale_dir(age_secs: u64) -> (r: bool)
    ensures
        r == (age_secs > STALE_DIR_SECS),
{
    age_secs > STALE_DIR_SECS
}

// ─── Shrinking a photo ───────────────────────────────────────────────────────

/// One way of encoding a photo: at this JPEG quality, scaled to this
/// percentage of its size.
#[derive(Clone, Copy, Debug, PartialEq, Eq, Structural)]
pub struct Attempt {
    pub quality: u8,
    pub scale_percent: u32,
}

/// The ways tried, in order, to bring a photo under the limit: the quality
/// lowered from 90 to 40 in steps of 10 at full size, then the photo scaled
/// to 80, 60 and 50 percent at quality 40.
pub open spec fn attempts_in_order() -> Seq<Attempt> {
    seq![
        Attempt { quality: 90, scale_percent: 100 },
        Attempt { quality: 80, scale_percent: 100 },
        Attempt { quality: 70, scale_percent: 100 },
        Attempt { quality: 60, scale_percent: 100 },
        Attempt { quality: 50, scale_percent: 100 },
        Attempt { quality: 40, scale_percent: 100 },
        Attempt { quality: 40, scale_percent: 80 },
        Attempt { quality: 40, scale_percent: 60 },
        Attempt { quality: 40, scale_percent: 50 },
    ]
}

/// The ways tried, in order, to bring a photo under the limit.
pub fn optimization_attempts() -> (r: Vec<Attempt>)
    ensures
        r@ == attempts_in_order(),
{
    let mut r: Vec<Attempt> = Vec::new();
    let mut quality: u8 = JPEG_QUALITY_START;
    while quality >= JPEG_QUALITY_MIN
        invariant
            quality == 90 || quality == 80 || quality == 70 || quality == 60 || quality == 50 || quality == 40 || quality == 30,
            r@ == attempts_in_order().take(((90 - quality) / 10) as int),
        decreases quality,
    {
        r.push(Attempt { quality, scale_percent: 100 });
        assert(r@ =~= attempts_in_order().take(((90 - quality) / 10 + 1) as int));
        quality = if quality >= JPEG_QUALITY_STEP { quality - JPEG_QUALITY_STEP } else { 0 };
    }
    let scales: [u32; 3] = [80, 60, 50];
    let mut k: usize = 0;
    while k < 3
        invariant
            scales@ == seq![80u32, 60u32, 50u32],
            k <= 3,
            r@ == attempts_in_order().take(6 + k),
        decreases 3 - k,
    {
        r.push(Attempt { quality: JPEG_QUALITY_MIN, scale_percent: scales[k] });
        assert(r@ =~= attempts_in_order().take(6 + k + 1));
        k = k + 1;
    }
    assert(r@ =~= attempts_in_order());
    r
}

/// `dim` scaled to `percent` percent, rounded down; a percentage over 100
/// enlarges.
pub fn scaled_dimension(dim: u32, percent: u32) -> (r: u32)
    requires
        dim * percent / 100 <= u32::MAX,
    ensures
        r == dim * percent / 100,
        percent <= 100 ==> r <= dim,
{
    assert((dim as u64) * (percent as u64) <= 0xffff_ffff * 0xffff_ffff) by (nonlinear_arith);
    let wide = (dim as u64) * (percent as u64) / 100;
    assert(percent <= 100 ==> wide <= dim) by (nonlinear_arith)
        requires
            wide == (dim as u64) * (percent as u64) / 100,
    ;
    wide as u32
}

// ─── Decoding and encoding, by the `image` crate ─────────────────────────────

#[verifier::external_type_specification]
#[verifier::external_body]
pub struct ExDynamicImage(image::DynamicImage);

/// The image that `image::load_from_memory` decodes from `bytes`, or none
/// when they do not decode.
pub uninterp spec fn decoded_image(bytes: Seq<u8>) -> Option<image::DynamicImage>;

/// Whether `image::load_from_memory` decodes `bytes` into an image.
pub open spec fn decodable(bytes: Seq<u8>) -> bool {
    decoded_image(bytes) is Some
}

/// Calls `image::load_from_memory`, which guesses the format from the bytes
/// and decodes them. Stated: the result is `decoded_image(bytes)`.
#[verifier::external_body]
fn decode_image(bytes: &[u8]) -> (r: Option<image::DynamicImage>)
    ensures
        r == decoded_image(bytes@),
{
    image::load_from_memory(bytes).ok()
}

/// The width, in pixels, that `DynamicImage::width` gives.
pub uninterp spec fn width_of(img: image::DynamicImage) -> u32;

/// The height, in pixels, that `DynamicImage::height` gives.
pub uninterp spec fn height_of(img: image::DynamicImage) -> u32;

/// Calls `DynamicImage::width`. Stated: the result is `width_of(img)`.
#[verifier::external_body]
fn image_width(img: &image::DynamicImage) -> (r: u32)
    ensures
        r == width_of(*img),
{
    img.width()
}

/// Calls `DynamicImage::height`. Stated: the result is `height_of(img)`.
#[verifier::external_body]
fn image_height(img: &image::DynamicImage) -> (r: u32)
    ensures
        r == height_of(*img),
{
    img.height()
}

/// Whether `r` is an image that `DynamicImage::resize` may give for `img`
/// and a box of `width` by `height` pixels: it fits the box on each side that
/// is at least one pixel, and, when the image and the box have no empty
/// side, one side fills the box while the other keeps the image's
/// proportions up to rounding.
pub open spec fn resize_outcome(img: image::DynamicImage, width: u32, height: u32, r: image::DynamicImage) -> bool {
    let (w, h) = (width_of(img) as int, height_of(img) as int);
    let (a, b) = (width_of(r) as int, height_of(r) as int);
    &&& width >= 1 ==> a <= width
    &&& height >= 1 ==> b <= height
    &&& (w >= 1 && h >= 1 && width >= 1 && height >= 1) ==> {
        ||| a == width && -w <= b * w - h * width <= w
        ||| b == height && -h <= a * h - w * height <= h
    }
}

/// Calls `DynamicImage::resize` with the Lanczos filter, which scales the
/// image to the largest size that fits `width` by `height` keeping its
/// proportions. Stated: `resize_outcome(img, width, height, r)`, that is, the
/// size of the new image as far as the crate's computation shows it (it never
/// makes a side narrower than one pixel, and rounds each side to the nearest
/// pixel). Left unsaid: the pixels, which the crate computes with a
/// floating-point sine whose precision the platform decides, so that two
/// calls on one image need not agree.
#[verifier::external_body]
fn resize_to(img: &image::DynamicImage, width: u32, height: u32) -> (r: image::DynamicImage)
    ensures
        resize_outcome(*img, width, height, r),
{
    img.resize(width, height, image::imageops::FilterType::Lanczos3)
}

/// The bytes that `DynamicImage::write_with_encoder` writes for `img` with a
/// `JpegEncoder` of the given quality, or none when encoding fails.
pub uninterp spec fn jpeg_at_quality(img: image::DynamicImage, quality: u8) -> Option<Seq<u8>>;

/// The bytes that `DynamicImage::write_to` writes for `img` in the JPEG
/// format, or none when encoding fails.
pub uninterp spec fn jpeg_written(img: image::DynamicImage) -> Option<Seq<u8>>;

/// Bytes that open with the JPEG start-of-image marker `FF D8`.
pub open spec fn starts_as_jpeg(bytes: Seq<u8>) -> bool {
    bytes.len() >= 2 && bytes[0] == 0xFF && bytes[1] == 0xD8
}

/// Encoded bytes, taken by their view.
pub open spec fn bytes_view(r: Option<Vec<u8>>) -> Option<Seq<u8>> {
    match r {
        Some(b) => Some(b@),
        None => None,
    }
}

/// Calls `DynamicImage::write_with_encoder` with a `JpegEncoder` of the given
/// quality over an in-memory buffer; the buffer's bytes come back, or nothing
/// when encoding failed. Stated: the result is `jpeg_at_quality(img, quality)`,
/// and bytes that come back start with the JPEG start-of-image marker, which
/// the encoder writes before anything else.
#[verifier::external_body]
fn compress_jpeg(img: &image::DynamicImage, quality: u8) -> (r: Option<Vec<u8>>)
    ensures
        bytes_view(r) == jpeg_at_quality(*img, quality),
        r matches Some(b) ==> starts_as_jpeg(b@),
{
    let mut buf = std::io::Cursor::new(Vec::new());
    let encoder = image::codecs::jpeg::JpegEncoder::new_with_quality(&mut buf, quality);
    match img.write_with_encoder(encoder) {
        Ok(()) => Some(buf.into_inner()),
        Err(_) => None,
    }
}

/// Calls `DynamicImage::write_to` with the JPEG format over an in-memory
/// buffer; the buffer's bytes come back, or nothing when encoding failed.
/// Stated: the result is `jpeg_written(img)`, and bytes that come back start
/// with the JPEG start-of-image marker.
#[verifier::external_body]
fn encode_jpeg(img: &image::DynamicImage) -> (r: Option<Vec<u8>>)
    ensures
        bytes_view(r) == jpeg_written(*img),
        r matches Some(b) ==> starts_as_jpeg(b@),
{
    let mut buf = std::io::Cursor::new(Vec::new());
    match img.write_to(&mut buf, image::ImageFormat::Jpeg) {
        Ok(()) => Some(buf.into_inner()),
        Err(_) => None,
    }
}

// ─── Shrinking a photo, on the encodings ─────────────────────────────────────

/// Whether `r` is an image that scaling `img` to `percent` percent of its
/// width and height may give.
pub open spec fn scaled_outcome(img: image::DynamicImage, percent: u32, r: image::DynamicImage) -> bool {
    resize_outcome(img, (width_of(img) * percent / 100) as u32, (height_of(img) * percent / 100) as u32, r)
}

/// Whether `encoded` is an encoding that `attempt` may make of `img`: the
/// image itself compressed at the attempt's quality, or, for a scaled
/// attempt, the compression of some image that scaling `img` may give.
pub open spec fn attempt_may_give(img: image::DynamicImage, attempt: Attempt, encoded: Option<Seq<u8>>) -> bool {
    if attempt.scale_percent == 100 {
        encoded == jpeg_at_quality(img, attempt.quality)
    } else {
        exists|s: image::DynamicImage|
            #[trigger] scaled_outcome(img, attempt.scale_percent, s) && encoded == jpeg_at_quality(s, attempt.quality)
    }
}

/// Whether an encoding came out within the upload limit.
pub open spec fn fits(encoded: Option<Seq<u8>>) -> bool {
    encoded matches Some(b) && b.len() <= MAX_SIZE_BYTES
}

/// The last encoding in `trail` that succeeded, or nothing when none did.
pub open spec fn last_success(trail: Seq<Option<Seq<u8>>>) -> Seq<u8>
    decreases trail.len(),
{
    if trail.len() == 0 {
        Seq::empty()
    } else {
        match trail.last() {
            Some(b) => b,
            None => last_success(trail.drop_last()),
        }
    }
}

/// Whether `trail`, the encodings made by the attempts in order, explains
/// `r`: every encoding is one its attempt may make, all but the last are over
/// the limit (or failed), and the bytes are the last encoding when it fits;
/// when all attempts were made and none fits, the bytes are the last
/// encoding that succeeded, or nothing if none did.
pub open spec fn shrink_trail(img: image::DynamicImage, trail: Seq<Option<Seq<u8>>>, r: OptimizedImage) -> bool {
    &&& 1 <= trail.len() <= attempts_in_order().len()
    &&& forall|j: int| 0 <= j < trail.len() ==> attempt_may_give(img, attempts_in_order()[j], #[trigger] trail[j])
    &&& forall|j: int| 0 <= j < trail.len() - 1 ==> !fits(#[trigger] trail[j])
    &&& forall|j: int| 0 <= j < trail.len() ==> (#[trigger] trail[j] matches Some(b) ==> starts_as_jpeg(b))
    &&& match r.attempt {
        Some(i) => i == trail.len() - 1 && fits(trail[i as int]) && trail[i as int] == Some(r.bytes@),
        None => {
            &&& trail.len() == attempts_in_order().len()
            &&& !fits(trail.last())
            &&& r.bytes@ == last_success(trail)
        },
    }
}

/// Whether `r` is what shrinking `img` owes: the encoding of the first
/// attempt that fits within the limit, or, when none fits, the last encoding
/// that could be made.
pub open spec fn is_shrunk_from(img: image::DynamicImage, r: OptimizedImage) -> bool {
    exists|trail: Seq<Option<Seq<u8>>>| #[trigger] shrink_trail(img, trail, r)
}

/// The last success in a trail of encodings is one of them, and empty only
/// when none succeeded.
proof fn lemma_last_success(trail: Seq<Option<Seq<u8>>>)
    ensures
        (forall|j: int| 0 <= j < trail.len() ==> #[trigger] trail[j] is None) ==> last_success(trail) == Seq::<u8>::empty(),
        (exists|j: int| 0 <= j < trail.len() && #[trigger] trail[j] is Some)
            ==> exists|j: int| 0 <= j < trail.len() && #[trigger] trail[j] == Some(last_success(trail)),
    decreases trail.len(),
{
    if trail.len() > 0 {
        let rest = trail.drop_last();
        lemma_last_success(rest);
        if trail.last() is None {
            assert forall|j: int| 0 <= j < rest.len() implies rest[j] == #[trigger] trail[j] by {}
            if exists|j: int| 0 <= j < trail.len() && #[trigger] trail[j] is Some {
                let j = choose|j: int| 0 <= j < trail.len() && #[trigger] trail[j] is Some;
                assert(rest[j] is Some);
                let k = choose|k: int| 0 <= k < rest.len() && #[trigger] rest[k] == Some(last_success(rest));
                assert(trail[k] == Some(last_success(trail)));
            }
        } else {
            assert(trail[trail.len() - 1] == Some(last_success(trail)));
        }
    }
}

/// A shrunk photo is never dropped: whenever any attempt managed to encode
/// it, the bytes kept are one of those encodings, and so a JPEG that is not
/// empty. Only a photo that no attempt could encode at all leaves no bytes.
pub proof fn lemma_shrinking_keeps_an_encoding(img: image::DynamicImage, r: OptimizedImage, trail: Seq<Option<Seq<u8>>>)
    requires
        shrink_trail(img, trail, r),
        exists|j: int| 0 <= j < trail.len() && #[trigger] trail[j] is Some,
    ensures
        exists|j: int| 0 <= j < trail.len() && #[trigger] trail[j] == Some(r.bytes@),
        starts_as_jpeg(r.bytes@),
        r.bytes@.len() > 0,
{
    lemma_last_success(trail);
    match r.attempt {
        Some(i) => {
            assert(trail[i as int] == Some(r.bytes@));
        },
        None => {},
    }
}

/// `img` scaled to `percent` percent of its width and height, keeping its
/// proportions.
fn resize_image(img: &image::DynamicImage, percent: u32) -> (r: image::DynamicImage)
    requires
        width_of(*img) * percent / 100 <= u32::MAX,
        height_of(*img) * percent / 100 <= u32::MAX,
    ensures
        scaled_outcome(*img, percent, r),
{
    let width = scaled_dimension(image_width(img), percent);
    let height = scaled_dimension(image_height(img), percent);
    resize_to(img, width, height)
}

/// What follows an attempt at encoding a photo.
#[derive(Debug)]
pub enum AttemptStep {
    /// These bytes fit: keep them.
    Keep(Vec<u8>),
    /// Make the attempt at this position.
    Next(usize),
    /// No attempt fit: keep the last encoding that could be made.
    Fallback,
}

/// Decides what follows attempt number `index` (counted from 0), given the
/// encoding it produced, if any: an encoding within the limit is kept;
/// otherwise the next attempt is made, and after the last one the photo falls
/// back to the last encoding that could be made.
pub fn after_attempt(index: usize, encoded: Option<Vec<u8>>) -> (r: AttemptStep)
    requires
        index < attempts_in_order().len(),
    ensures
        encoded matches Some(b) && b@.len() <= MAX_SIZE_BYTES ==> r == AttemptStep::Keep(encoded->0),
        !(encoded matches Some(b) && b@.len() <= MAX_SIZE_BYTES) && index + 1 < attempts_in_order().len()
            ==> r == AttemptStep::Next((index + 1) as usize),
        !(encoded matches Some(b) && b@.len() <= MAX_SIZE_BYTES) && index + 1 == attempts_in_order().len()
            ==> r is Fallback,
{
    match encoded {
        Some(bytes) => {
            if bytes.len() <= MAX_SIZE_BYTES {
                return AttemptStep::Keep(bytes);
            }
        },
        None => {},
    }
    if index + 1 < 9 {
        AttemptStep::Next(index + 1)
    } else {
        AttemptStep::Fallback
    }
}

/// The encoding of `img` that `attempt` describes: scaled first unless the
/// attempt keeps the full size, then compressed at the attempt's quality.
fn encode_attempt(img: &image::DynamicImage, attempt: Attempt) -> (r: Option<Vec<u8>>)
    requires
        width_of(*img) * attempt.scale_percent / 100 <= u32::MAX,
        height_of(*img) * attempt.scale_percent / 100 <= u32::MAX,
    ensures
        attempt_may_give(*img, attempt, bytes_view(r)),
        r matches Some(b) ==> starts_as_jpeg(b@),
{
    if attempt.scale_percent == 100 {
        compress_jpeg(img, attempt.quality)
    } else {
        let resized = resize_image(img, attempt.scale_percent);
        compress_jpeg(&resized, attempt.quality)
    }
}

/// A shrunk photo, and the way that brought it under the limit.
#[derive(Debug)]
pub struct OptimizedImage {
    pub bytes: Vec<u8>,
    /// The attempt that fit, by its position among the attempts; none when no
    /// attempt fit and the last encoding that could be made was kept anyway.
    pub attempt: Option<usize>,
}

/// A copy of `bytes`.
fn copy_bytes(bytes: &Vec<u8>) -> (r: Vec<u8>)
    ensures
        r@ == bytes@,
{
    let r = bytes.clone();
    assert(r@ =~= bytes@);
    r
}

/// Shrinks a photo that is over the limit. The attempts are made in order,
/// and `after_attempt` decides after each one: the first encoding within the
/// limit is kept. When none fits, the photo is not dropped: the last
/// encoding that could be made (normally the one scaled to half at the
/// lowest quality) is sent anyway, since sending it beats dropping it. Only
/// a photo that no attempt could encode at all leaves no bytes.
pub fn optimize_image(img: &image::DynamicImage) -> (r: OptimizedImage)
    ensures
        is_shrunk_from(*img, r),
{
    let attempts = optimization_attempts();
    let mut i: usize = 0;
    let mut last_encoded: Option<Vec<u8>> = None;
    let ghost mut trail: Seq<Option<Seq<u8>>> = Seq::empty();
    loop
        invariant_except_break
            trail.len() == i,
        invariant
            attempts@ == attempts_in_order(),
            i < attempts@.len(),
            trail.len() >= i,
            forall|j: int| 0 <= j < i ==> attempt_may_give(*img, attempts_in_order()[j], #[trigger] trail[j]),
            forall|j: int| 0 <= j < i ==> !fits(#[trigger] trail[j]),
            forall|j: int| 0 <= j < i ==> (#[trigger] trail[j] matches Some(b) ==> starts_as_jpeg(b)),
            bytes_view(last_encoded) == (if last_success(trail).len() == 0 { None } else { Some(last_success(trail)) }),
        ensures
            i + 1 == attempts_in_order().len(),
            trail.len() == attempts_in_order().len(),
            forall|j: int| 0 <= j < trail.len() ==> attempt_may_give(*img, attempts_in_order()[j], #[trigger] trail[j]),
            forall|j: int| 0 <= j < trail.len() ==> !fits(#[trigger] trail[j]),
            forall|j: int| 0 <= j < trail.len() ==> (#[trigger] trail[j] matches Some(b) ==> starts_as_jpeg(b)),
            bytes_view(last_encoded) == (if last_success(trail).len() == 0 { None } else { Some(last_success(trail)) }),
        decreases attempts@.len() - i,
    {
        let attempt = attempts[i];
        proof {
            let k = i as int;
            assert(0 <= k < 9);
            assert(attempts_in_order()[k].scale_percent <= 100) by {
                if k == 0 {} else if k == 1 {} else if k == 2 {} else if k == 3 {} else if k == 4 {}
                else if k == 5 {} else if k == 6 {} else if k == 7 {} else {}
            }
            let (w, h, p) = (width_of(*img), height_of(*img), attempt.scale_percent);
            assert(w * p / 100 <= u32::MAX && h * p / 100 <= u32::MAX) by (nonlinear_arith)
                requires
                    p <= 100,
            ;
        }
        let encoded = encode_attempt(img, attempt);
        let ghost this_one = bytes_view(encoded);
        let ghost before = trail;
        proof {
            trail = trail.push(this_one);
            assert(trail.drop_last() =~= before);
            assert forall|j: int| 0 <= j < i implies #[trigger] trail[j] == before[j] by {}
        }
        match &encoded {
            Some(b) => {
                last_encoded = Some(copy_bytes(b));
            },
            None => {},
        }
        match after_attempt(i, encoded) {
            AttemptStep::Keep(bytes) => {
                let r = OptimizedImage { bytes, attempt: Some(i) };
                assert(shrink_trail(*img, trail, r));
                return r;
            },
            AttemptStep::Next(next) => {
                assert(!fits(this_one));
                i = next;
            },
            AttemptStep::Fallback => {
                assert(!fits(this_one));
                break;
            },
        }
    }
    let bytes = match last_encoded {
        Some(b) => b,
        None => Vec::new(),
    };
    let r = OptimizedImage { bytes, attempt: None };
    assert(r.bytes@ =~= last_success(trail));
    assert(shrink_trail(*img, trail, r));
    r
}

/// A downloaded photo made ready for upload.
#[derive(Debug)]
pub enum ProcessedImage {
    /// Within the limit; re-encoded as JPEG.
    Converted(Vec<u8>),
    /// Over the limit; shrunk.
    Optimized(OptimizedImage),
}

/// Makes a downloaded photo ready for upload as JPEG: a download over 60 MiB
/// or one that does not decode is dropped; one over 10 MiB is shrunk, which
/// always yields a result; any other is re-encoded as JPEG, and dropped if
/// that fails.
pub fn process_download(bytes: &[u8]) -> (r: Option<ProcessedImage>)
    ensures
        download_action_of(bytes@.len() as usize) == DownloadAction::Discard ==> r is None,
        download_action_of(bytes@.len() as usize) != DownloadAction::Discard && !decodable(bytes@) ==> r is None,
        download_action_of(bytes@.len() as usize) == DownloadAction::Optimize
            ==> (decoded_image(bytes@) matches Some(img)
                ==> (r matches Some(ProcessedImage::Optimized(o)) && is_shrunk_from(img, o))),
        download_action_of(bytes@.len() as usize) == DownloadAction::Convert
            ==> (decoded_image(bytes@) matches Some(img) ==> match jpeg_written(img) {
                Some(jpeg) => r matches Some(ProcessedImage::Converted(out)) && out@ == jpeg,
                None => r is None,
            }),
{
    let action = download_action(bytes.len());
    match action {
        DownloadAction::Discard => None,
        _ => {
            match decode_image(bytes) {
                None => None,
                Some(img) => {
                    match action {
                        DownloadAction::Optimize => Some(ProcessedImage::Optimized(optimize_image(&img))),
                        _ => match encode_jpeg(&img) {
                            Some(out) => Some(ProcessedImage::Converted(out)),
                            None => None,
                        },
                    }
                },
            }
        },
    }
}

} // verus!
