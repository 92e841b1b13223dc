//! Scannability scoring for QR code images.
//!
//! An image is decoded by an ensemble of independent strategies, then a fixed
//! matrix of perturbed variants of it is decoded again; the pass/fail outcomes
//! and a contrast measurement are reduced to a weighted score from 0 to 100.

use image::DynamicImage;
use vstd::prelude::*;

pub mod contrast;
pub mod decoder;
pub mod error;
pub mod names;
pub mod raster;
pub mod report;
pub mod scorer;
pub mod types;
pub mod variants;

pub use error::QrScoreError;
pub use types::{
    DecodeResult, ErrorCorrectionLevel, QrMetadata, StressResults, TestConfig, ValidationResult,
    Weights,
};

use decoder::{is_decoding, is_file_decoding, ReaderCall, ReaderReply};
use raster::{dimensions, dimensions_of};
use scorer::{is_stress_outcome, score};
use variants::Variant;

verus! {

/// The longest side, in pixels, of a raster that is accepted for decoding.
pub const MAX_DIMENSION: u32 = 10_000;

/// What the dimension guard answers for a raster of `width` by `height`
/// pixels when no side may exceed `max_dimension`.
pub open spec fn dimension_verdict(width: u32, height: u32, max_dimension: u32) -> Result<
    (),
    QrScoreError,
> {
    if width > max_dimension || height > max_dimension {
        Err(QrScoreError::DimensionsTooLarge { width, height, max_dimension })
    } else if width * height > u32::MAX {
        Err(QrScoreError::DimensionOverflow { width, height })
    } else {
        Ok(())
    }
}

/// Checks a raster's dimensions against a largest accepted side.
///
/// A side longer than `max_dimension` is reported first; otherwise a pixel
/// count that does not fit in 32 bits is reported.
pub fn validate_dimensions_within(width: u32, height: u32, max_dimension: u32) -> (res: Result<
    (),
    QrScoreError,
>)
    ensures
        res == dimension_verdict(width, height, max_dimension),
{
    if width > max_dimension || height > max_dimension {
        return Err(QrScoreError::DimensionsTooLarge { width, height, max_dimension });
    }
    if width.checked_mul(height).is_none() {
        return Err(QrScoreError::DimensionOverflow { width, height });
    }
    Ok(())
}

/// Checks a raster's dimensions against [`MAX_DIMENSION`].
///
/// With that limit the pixel count always fits, so the only failure is a
/// side that is too long.
pub fn validate_dimensions(width: u32, height: u32) -> (res: Result<(), QrScoreError>)
    ensures
        res == dimension_verdict(width, height, MAX_DIMENSION),
        res is Ok <==> width <= MAX_DIMENSION && height <= MAX_DIMENSION,
        res is Err ==> res == Err::<(), QrScoreError>(
            QrScoreError::DimensionsTooLarge { width, height, max_dimension: MAX_DIMENSION },
        ),
{
    assert(width <= MAX_DIMENSION && height <= MAX_DIMENSION ==> width * height <= u32::MAX)
        by (nonlinear_arith);
    validate_dimensions_within(width, height, MAX_DIMENSION)
}

/// Whether an image passes the dimension guard.
pub open spec fn passes_guard(img: DynamicImage) -> bool {
    dimension_verdict(dimensions_of(img).0, dimensions_of(img).1, MAX_DIMENSION) is Ok
}

/// Whether `result` is what a scoring run owes for an image under `config`,
/// with `read` making the readers' calls and `luminance_bins` and
/// `probe_all` doing the measuring.
///
/// An image that does not pass the dimension guard gives the dimension
/// error with its own sides. An image that passes and that the ensemble
/// decodes gives a result: it says that the image was decoded, carries the
/// payload and the metadata that the ensemble found, the outcome of the
/// stress run of the image, and the score of that outcome under the weights.
/// An image that passes and on which the ensemble fails gives that failure,
/// and nothing else does.
pub open spec fn is_image_validation<R, B, P>(
    img: &DynamicImage,
    config: &TestConfig,
    read: R,
    luminance_bins: B,
    probe_all: P,
    result: Result<ValidationResult, QrScoreError>,
) -> bool where
    R: Fn(ReaderCall, &Vec<u8>, u32, u32) -> ReaderReply,
    B: FnOnce(&DynamicImage) -> Vec<u16>,
    P: FnOnce(&DynamicImage, &Vec<Variant>) -> Vec<bool>,
 {
    if !passes_guard(*img) {
        result == Err::<ValidationResult, QrScoreError>(
            QrScoreError::DimensionsTooLarge {
                width: dimensions_of(*img).0,
                height: dimensions_of(*img).1,
                max_dimension: MAX_DIMENSION,
            },
        )
    } else {
        match result {
            Ok(found) => {
                &&& found.decodable
                &&& found.score == score(found.stress_results@, config.weights@)
                &&& found.score <= 100
                &&& found.metadata is Some
                &&& exists|decoded: DecodeResult|
                    {
                        &&& #[trigger] is_decoding(read, *img, Ok(decoded))
                        &&& found.content == Some(decoded.content)
                        &&& found.metadata == decoded.metadata
                    }
                &&& is_stress_outcome(
                    img,
                    config,
                    luminance_bins,
                    probe_all,
                    found.stress_results@,
                )
            },
            Err(e) => {
                &&& e == QrScoreError::DecodeFailed
                &&& is_decoding(
                    read,
                    *img,
                    Err::<DecodeResult, QrScoreError>(QrScoreError::DecodeFailed),
                )
            },
        }
    }
}

/// Scores the scannability of the QR code in an image.
///
/// The dimensions are checked before any decoding, and the untouched image
/// is decoded by the ensemble: where either fails, nothing is scored. Only
/// then the stress run is made and scored; a variant that is not decoded
/// lowers the score and never fails the run.
///
/// The three functions do what this library leaves to its caller. `read`
/// makes the call of a reader that an attempt asks for, contains a fault of
/// the reader, and hands back what the reader answered; `luminance_bins`
/// gives the relative luminance of every pixel in thousandths; `probe_all`
/// makes and decodes every variant of the matrix.
pub fn validate_image<R, B, P>(
    img: &DynamicImage,
    config: &TestConfig,
    read: R,
    luminance_bins: B,
    probe_all: P,
) -> (result: Result<ValidationResult, QrScoreError>) where
    R: Fn(ReaderCall, &Vec<u8>, u32, u32) -> ReaderReply,
    B: FnOnce(&DynamicImage) -> Vec<u16>,
    P: FnOnce(&DynamicImage, &Vec<Variant>) -> Vec<bool>,

    requires
        forall|call: ReaderCall, samples: &Vec<u8>, width: u32, height: u32|
            call_requires(read, (call, samples, width, height)),
        call_requires(luminance_bins, (img,)),
        forall|plan: &Vec<Variant>| call_requires(probe_all, (img, plan)),
    ensures
        is_image_validation(img, config, read, luminance_bins, probe_all, result),
{
    let (width, height) = dimensions(img);
    match validate_dimensions(width, height) {
        Ok(()) => {},
        Err(e) => {
            return Err(e);
        },
    }
    let decoded = match decoder::try_decode(img, read) {
        Ok(decoded) => decoded,
        Err(e) => {
            return Err(e);
        },
    };
    let ghost found = decoded;
    let (stress_results, score) = scorer::validate(img, config, luminance_bins, probe_all);
    let result = ValidationResult {
        score,
        decodable: true,
        content: Some(decoded.content),
        metadata: decoded.metadata,
        stress_results,
    };
    assert(is_decoding(read, *img, Ok(found)));
    Ok(result)
}

/// Whether `result` is what a scoring run of the bytes of an image file
/// owes: what it owes for some image, or the failure to read the bytes as an
/// image at all.
pub open spec fn is_validation<R, B, P>(
    config: &TestConfig,
    read: R,
    luminance_bins: B,
    probe_all: P,
    result: Result<ValidationResult, QrScoreError>,
) -> bool where
    R: Fn(ReaderCall, &Vec<u8>, u32, u32) -> ReaderReply,
    B: FnOnce(&DynamicImage) -> Vec<u16>,
    P: FnOnce(&DynamicImage, &Vec<Variant>) -> Vec<bool>,
 {
    match result {
        Err(QrScoreError::ImageLoad(_)) => true,
        _ => exists|img: DynamicImage| #[trigger]
            is_image_validation(&img, config, read, luminance_bins, probe_all, result),
    }
}

/// Scores the scannability of the QR code in the bytes of an image file.
///
/// The bytes are read as an image, which is scored by [`validate_image`].
/// Bytes that are not read as an image fail with what the reader of images
/// says of them.
pub fn validate<R, B, P>(
    image_bytes: &[u8],
    config: &TestConfig,
    read: R,
    luminance_bins: B,
    probe_all: P,
) -> (result: Result<ValidationResult, QrScoreError>) where
    R: Fn(ReaderCall, &Vec<u8>, u32, u32) -> ReaderReply,
    B: FnOnce(&DynamicImage) -> Vec<u16>,
    P: FnOnce(&DynamicImage, &Vec<Variant>) -> Vec<bool>,

    requires
        forall|call: ReaderCall, samples: &Vec<u8>, width: u32, height: u32|
            call_requires(read, (call, samples, width, height)),
        forall|img: &DynamicImage| call_requires(luminance_bins, (img,)),
        forall|img: &DynamicImage, plan: &Vec<Variant>| call_requires(probe_all, (img, plan)),
    ensures
        is_validation(config, read, luminance_bins, probe_all, result),
{
    match image::load_from_memory(image_bytes) {
        Ok(img) => {
            let result = validate_image(&img, config, read, luminance_bins, probe_all);
            assert(is_image_validation(
                &img,
                config,
                read,
                luminance_bins,
                probe_all,
                result,
            ));
            result
        },
        Err(e) => Err(QrScoreError::ImageLoad(e.to_string())),
    }
}

/// Decodes the QR code in the bytes of an image file, without scoring it.
/// `read` makes the readers' calls.
pub fn decode_only<R: Fn(ReaderCall, &Vec<u8>, u32, u32) -> ReaderReply>(
    image_bytes: &[u8],
    read: R,
) -> (result: Result<DecodeResult, QrScoreError>)
    requires
        forall|call: ReaderCall, samples: &Vec<u8>, width: u32, height: u32|
            call_requires(read, (call, samples, width, height)),
    ensures
        is_file_decoding(read, result),
{
    decoder::multi_decode(image_bytes, read)
}

} // verus!
