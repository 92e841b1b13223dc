//! The values that a scoring run takes and gives.
//!
//! Magnitudes that are fractions are held in thousandths: a contrast
//! measurement of `1000` is a spread over the whole luminance range, a blur
//! sigma of `1000` is one pixel.

use crate::names::NameMap;
use crate::variants::{variant_name, variant_names, lemma_variant_names_distinct, VARIANT_COUNT};
use vstd::prelude::*;

verus! {

/// The redundancy tier of a QR symbol.
#[derive(Debug, Clone, Copy, PartialEq, Eq, Structural)]
pub enum ErrorCorrectionLevel {
    L,
    M,
    Q,
    H,
}

impl ErrorCorrectionLevel {
    /// The letter that stands for the level.
    pub open spec fn label(self) -> Seq<char> {
        match self {
            ErrorCorrectionLevel::L => "L"@,
            ErrorCorrectionLevel::M => "M"@,
            ErrorCorrectionLevel::Q => "Q"@,
            ErrorCorrectionLevel::H => "H"@,
        }
    }

    /// The letter that stands for the level, as text.
    pub fn to_string(&self) -> (text: String)
        ensures
            text@ == self.label(),
    {
        match self {
            ErrorCorrectionLevel::L => "L".to_owned(),
            ErrorCorrectionLevel::M => "M".to_owned(),
            ErrorCorrectionLevel::Q => "Q".to_owned(),
            ErrorCorrectionLevel::H => "H".to_owned(),
        }
    }
}

impl Default for ErrorCorrectionLevel {
    /// The level that is taken where a decoder reports none.
    fn default() -> (level: Self)
        ensures
            level == ErrorCorrectionLevel::M,
    {
        ErrorCorrectionLevel::M
    }
}

/// What a decoder reports of a symbol besides its payload.
#[derive(Debug, Clone, Copy, PartialEq, Eq, Structural)]
pub struct QrMetadata {
    pub error_correction: ErrorCorrectionLevel,
}

/// The payload of a decoded symbol and what is known of the symbol.
#[derive(Debug, Clone)]
pub struct DecodeResult {
    pub content: String,
    pub metadata: Option<QrMetadata>,
}

/// A [`DecodeResult`] with its text as characters.
pub struct Decoded {
    pub content: Seq<char>,
    pub metadata: Option<QrMetadata>,
}

impl View for DecodeResult {
    type V = Decoded;

    open spec fn view(&self) -> Decoded {
        Decoded { content: self.content@, metadata: self.metadata }
    }
}

/// How much each stress test, and the contrast measurement, counts in the
/// score. A test that the table does not name counts nothing.
#[derive(Debug, Clone)]
pub struct Weights {
    /// The weight of each stress test, by the variant's name.
    pub tests: NameMap<u32>,
    /// The weight of the contrast measurement.
    pub contrast_ratio: u32,
}

/// A weight table as the entries that it holds.
pub struct WeightTable {
    /// The tests with their weights; no test occurs twice.
    pub tests: Seq<(Seq<char>, u32)>,
    /// The weight of the contrast measurement.
    pub contrast_ratio: u32,
}

impl View for Weights {
    type V = WeightTable;

    open spec fn view(&self) -> WeightTable {
        WeightTable { tests: self.tests@, contrast_ratio: self.contrast_ratio }
    }
}

/// The weight that each variant of the matrix has by default, in the order
/// of the matrix.
pub open spec fn default_test_weights() -> Seq<u32> {
    seq![1, 2, 2, 2, 2, 1, 2, 2, 1, 1, 2, 2, 1, 1, 1, 1, 1, 1, 1, 1, 1, 1]
}

/// The default weight table of the stress tests: every variant of the matrix
/// with its default weight.
pub open spec fn default_weight_entries() -> Seq<(Seq<char>, u32)> {
    Seq::new(VARIANT_COUNT as nat, |i: int| (variant_names()[i], default_test_weights()[i]))
}

/// The weight that the variant at `index` of the matrix has by default.
fn default_test_weight(index: usize) -> (weight: u32)
    requires
        index < VARIANT_COUNT,
    ensures
        weight == default_test_weights()[index as int],
{
    match index {
        0 | 5 | 8 | 9 => 1,
        1 | 2 | 3 | 4 | 6 | 7 | 10 | 11 => 2,
        _ => 1,
    }
}

/// The sums of the default weights of the first variants of the matrix: of
/// none, of the first, of the first two, and so on.
spec fn default_weight_sums() -> Seq<nat> {
    seq![0, 1, 3, 5, 7, 9, 10, 12, 14, 15, 16, 18, 20, 21, 22, 23, 24, 25, 26, 27, 28, 29, 30]
}

/// The default weights of the first `count` variants sum to the entry of
/// [`default_weight_sums`] for `count`.
proof fn lemma_default_weights_sum_to(count: int)
    requires
        0 <= count <= VARIANT_COUNT,
    ensures
        crate::scorer::tests_weight(default_weight_entries().take(count))
            == default_weight_sums()[count],
    decreases count,
{
    let all = default_weight_entries();
    if count > 0 {
        lemma_default_weights_sum_to(count - 1);
        assert(all.take(count).drop_last() =~= all.take(count - 1));
        assert(all.take(count).last() == all[count - 1]);
        assert(all[count - 1].1 == default_test_weights()[count - 1]);
    }
}

/// The default weights of the stress tests sum to 30, which with the 70 of
/// the contrast measurement makes 100.
pub proof fn lemma_default_weights_sum()
    ensures
        crate::scorer::tests_weight(default_weight_entries()) == 30,
{
    lemma_default_weights_sum_to(VARIANT_COUNT as int);
    assert(default_weight_entries().take(VARIANT_COUNT as int) =~= default_weight_entries());
}

impl Default for Weights {
    /// The default weights: those of [`default_weight_entries`], and 70 for
    /// the contrast measurement. They sum to 100.
    fn default() -> (weights: Self)
        ensures
            weights.tests@ == default_weight_entries(),
            weights.contrast_ratio == 70,
    {
        let mut tests: NameMap<u32> = NameMap::new();
        let mut i: usize = 0;
        while i < VARIANT_COUNT
            invariant
                i <= VARIANT_COUNT,
                tests@ == default_weight_entries().take(i as int),
            decreases VARIANT_COUNT - i,
        {
            let name = variant_name(i).to_owned();
            proof {
                lemma_variant_names_distinct();
                let so_far = default_weight_entries().take(i as int);
                assert(!crate::names::has_name(so_far, name@));
                assert(so_far.push((name@, default_test_weights()[i as int]))
                    =~= default_weight_entries().take(i + 1));
            }
            tests.insert(name, default_test_weight(i));
            i += 1;
        }
        assert(default_weight_entries().take(VARIANT_COUNT as int) =~= default_weight_entries());
        Weights { tests, contrast_ratio: 70 }
    }
}

/// The outcome of the stress tests of one image.
#[derive(Debug, Clone)]
pub struct StressResults {
    /// Whether each variant was decoded, by the variant's name.
    pub tests: NameMap<bool>,
    /// The contrast measurement of the untouched image, in thousandths of
    /// the luminance range.
    pub contrast_permille: u32,
}

/// The outcome of a stress run as the entries that it holds.
pub struct StressOutcome {
    /// The variants with whether they were decoded; no variant occurs twice.
    pub tests: Seq<(Seq<char>, bool)>,
    /// The contrast measurement, in thousandths of the luminance range.
    pub contrast_permille: u32,
}

impl View for StressResults {
    type V = StressOutcome;

    open spec fn view(&self) -> StressOutcome {
        StressOutcome { tests: self.tests@, contrast_permille: self.contrast_permille }
    }
}

impl Default for StressResults {
    /// No test run, and no contrast.
    fn default() -> (results: Self)
        ensures
            results.tests@ == Seq::<(Seq<char>, bool)>::empty(),
            results.contrast_permille == 0,
    {
        StressResults { tests: NameMap::new(), contrast_permille: 0 }
    }
}

impl StressResults {
    /// The contrast measurement in whole percent, rounded to the nearest and
    /// at most 100.
    pub open spec fn percent_of(permille: u32) -> nat {
        if permille >= 1000 {
            100
        } else {
            ((permille + 5) / 10) as nat
        }
    }

    /// The contrast measurement in whole percent.
    pub fn contrast_percent(&self) -> (percent: u8)
        ensures
            percent == Self::percent_of(self.contrast_permille),
    {
        if self.contrast_permille >= 1000 {
            100
        } else {
            ((self.contrast_permille + 5) / 10) as u8
        }
    }
}

/// The parameters of a scoring run.
#[derive(Debug, Clone)]
pub struct TestConfig {
    /// The side of the square, in pixels, that a vector document is rendered to.
    pub render_size: u32,
    /// The natural side of the image, in pixels, before any enlargement;
    /// 100 is taken where it is not given.
    pub native_size: Option<u32>,
    /// Sigma of the light Gaussian blur, in thousandths of a pixel.
    pub blur_light_sigma_milli: i32,
    /// Sigma of the heavy Gaussian blur, in thousandths of a pixel.
    pub blur_heavy_sigma_milli: i32,
    /// Magnitude of the contrast change, in thousandths.
    pub contrast_milli: i32,
    /// Magnitude of the strict contrast change, in thousandths.
    pub contrast_strict_milli: i32,
    /// Offset of the brightness change.
    pub luminance: i32,
    /// Offset of the strict brightness change.
    pub luminance_strict: i32,
    /// Angle of the hue rotation, in thousandths of a degree.
    pub hue_milli: i32,
    /// Angle of the strict hue rotation, in thousandths of a degree.
    pub hue_strict_milli: i32,
    /// Magnitude of the saturation change, in thousandths of a percent.
    pub saturation_milli: i32,
    /// Magnitude of the strict saturation change, in thousandths of a percent.
    pub saturation_strict_milli: i32,
    /// The weights by which the outcomes are scored.
    pub weights: Weights,
}

impl Default for TestConfig {
    /// The default parameters.
    fn default() -> (config: Self)
        ensures
            config.render_size == 400,
            config.native_size == None::<u32>,
            config.blur_light_sigma_milli == 1_000,
            config.blur_heavy_sigma_milli == 2_000,
            config.contrast_milli == 30_000,
            config.contrast_strict_milli == 50_000,
            config.luminance == 20,
            config.luminance_strict == 40,
            config.hue_milli == 45_000,
            config.hue_strict_milli == 90_000,
            config.saturation_milli == 30_000,
            config.saturation_strict_milli == 50_000,
            config.weights.tests@ == default_weight_entries(),
            config.weights.contrast_ratio == 70,
    {
        TestConfig {
            render_size: 400,
            native_size: None,
            blur_light_sigma_milli: 1_000,
            blur_heavy_sigma_milli: 2_000,
            contrast_milli: 30_000,
            contrast_strict_milli: 50_000,
            luminance: 20,
            luminance_strict: 40,
            hue_milli: 45_000,
            hue_strict_milli: 90_000,
            saturation_milli: 30_000,
            saturation_strict_milli: 50_000,
            weights: Weights::default(),
        }
    }
}

impl TestConfig {
    /// The side of the square that a document of natural side `native` is
    /// rendered to under these parameters: the render size, and the natural
    /// side where that is larger, so that nothing is rendered below its
    /// natural size.
    pub open spec fn render_side(self, native: u32) -> u32 {
        if self.render_size >= native {
            self.render_size
        } else {
            native
        }
    }

    /// The parameters with the render size replaced where one is given.
    pub fn with_render_size(self, render_size: Option<u32>) -> (config: Self)
        ensures
            config == (TestConfig {
                render_size: match render_size {
                    Some(size) => size,
                    None => self.render_size,
                },
                ..self
            }),
    {
        match render_size {
            Some(size) => TestConfig { render_size: size, ..self },
            None => self,
        }
    }

    /// The parameters for an image of natural side `native`.
    pub fn with_native_size(self, native: u32) -> (config: Self)
        ensures
            config == (TestConfig { native_size: Some(native), ..self }),
    {
        TestConfig { native_size: Some(native), ..self }
    }

    /// The side of the square that a document of natural side `native` is
    /// rendered to.
    pub fn render_target(&self, native: u32) -> (side: u32)
        ensures
            side == self.render_side(native),
            side >= native,
            side >= self.render_size,
    {
        if self.render_size >= native {
            self.render_size
        } else {
            native
        }
    }
}

/// What a scoring run found of one image.
#[derive(Debug, Clone)]
pub struct ValidationResult {
    /// The scannability score, from 0 to 100.
    pub score: u8,
    /// Whether the untouched image was decoded.
    pub decodable: bool,
    /// The payload of the untouched image.
    pub content: Option<String>,
    /// What the decoder reported of the symbol.
    pub metadata: Option<QrMetadata>,
    /// The outcome of the stress tests.
    pub stress_results: StressResults,
}

} // verus!
