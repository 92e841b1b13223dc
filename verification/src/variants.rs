//! The fixed matrix of perturbations that an image is put through.

use crate::types::TestConfig;
use vstd::prelude::*;

verus! {

/// The number of perturbed variants in the matrix.
pub const VARIANT_COUNT: usize = 22;

/// The names of the variants, in the order of the matrix.
pub open spec fn variant_names() -> Seq<Seq<char>> {
    seq![
        "downscale_1x"@,
        "downscale_2x"@,
        "downscale_3x"@,
        "downscale_4x"@,
        "blur_light"@,
        "blur_heavy"@,
        "contrast_up"@,
        "contrast_down"@,
        "contrast_strict_up"@,
        "contrast_strict_down"@,
        "luminance_up"@,
        "luminance_down"@,
        "luminance_strict_up"@,
        "luminance_strict_down"@,
        "hue_up"@,
        "hue_down"@,
        "hue_strict_up"@,
        "hue_strict_down"@,
        "saturation_up"@,
        "saturation_down"@,
        "saturation_strict_up"@,
        "saturation_strict_down"@,
    ]
}

/// The name of the variant at `index` of the matrix.
pub fn variant_name(index: usize) -> (name: &'static str)
    requires
        index < VARIANT_COUNT,
    ensures
        name@ == variant_names()[index as int],
{
    match index {
        0 => "downscale_1x",
        1 => "downscale_2x",
        2 => "downscale_3x",
        3 => "downscale_4x",
        4 => "blur_light",
        5 => "blur_heavy",
        6 => "contrast_up",
        7 => "contrast_down",
        8 => "contrast_strict_up",
        9 => "contrast_strict_down",
        10 => "luminance_up",
        11 => "luminance_down",
        12 => "luminance_strict_up",
        13 => "luminance_strict_down",
        14 => "hue_up",
        15 => "hue_down",
        16 => "hue_strict_up",
        17 => "hue_strict_down",
        18 => "saturation_up",
        19 => "saturation_down",
        20 => "saturation_strict_up",
        _ => "saturation_strict_down",
    }
}

/// The length of a name with three of its characters: enough to tell the
/// variant names apart.
spec fn fingerprint(name: Seq<char>) -> (nat, char, char, char) {
    (name.len(), name[0], name[5], name[10])
}

/// No two variants share a name.
pub proof fn lemma_variant_names_distinct()
    ensures
        variant_names().len() == VARIANT_COUNT,
        forall|i: int, j: int|
            0 <= i < j < VARIANT_COUNT ==> variant_names()[i] != variant_names()[j],
{
    reveal_strlit("downscale_1x");
    reveal_strlit("downscale_2x");
    reveal_strlit("downscale_3x");
    reveal_strlit("downscale_4x");
    reveal_strlit("blur_light");
    reveal_strlit("blur_heavy");
    reveal_strlit("contrast_up");
    reveal_strlit("contrast_down");
    reveal_strlit("contrast_strict_up");
    reveal_strlit("contrast_strict_down");
    reveal_strlit("luminance_up");
    reveal_strlit("luminance_down");
    reveal_strlit("luminance_strict_up");
    reveal_strlit("luminance_strict_down");
    reveal_strlit("hue_up");
    reveal_strlit("hue_down");
    reveal_strlit("hue_strict_up");
    reveal_strlit("hue_strict_down");
    reveal_strlit("saturation_up");
    reveal_strlit("saturation_down");
    reveal_strlit("saturation_strict_up");
    reveal_strlit("saturation_strict_down");
    assert forall|i: int, j: int| 0 <= i < j < VARIANT_COUNT implies variant_names()[i]
        != variant_names()[j] by {
        assert(fingerprint(variant_names()[i]) != fingerprint(variant_names()[j]));
    }
}

/// One perturbation of an image, with its magnitude.
#[derive(Debug, Clone, Copy, PartialEq, Eq, Structural)]
pub enum Transform {
    /// Shrink the image so that its longest side is `longest_side` pixels;
    /// an image that is not larger stays as it is.
    Downscale { longest_side: u32 },
    /// Gaussian blur; sigma in thousandths of a pixel.
    Blur { sigma_milli: i32 },
    /// Contrast change; the amount in thousandths.
    Contrast { amount_milli: i32 },
    /// Brightness change by an offset on every channel.
    Luminance { offset: i32 },
    /// Hue rotation by whole degrees.
    Hue { degrees: i32 },
    /// Saturation change; the amount in thousandths of a percent.
    Saturation { percent_milli: i32 },
}

/// A named entry of the matrix: the perturbation that makes the variant.
#[derive(Debug, Clone, Copy)]
pub struct Variant {
    pub name: &'static str,
    pub transform: Transform,
}

/// The natural side that is taken where the parameters give none.
pub const DEFAULT_NATIVE_SIZE: u32 = 100;

/// The magnitude `amount` in the opposite direction. The lowest value, which
/// has no opposite, gives the highest.
pub open spec fn negated(amount: i32) -> i32 {
    if amount == i32::MIN {
        i32::MAX
    } else {
        (-amount) as i32
    }
}

/// The whole degrees of an angle in thousandths of a degree: the fraction is
/// dropped, towards zero.
pub open spec fn whole_degrees(milli: i32) -> i32 {
    if milli >= 0 {
        (milli / 1000) as i32
    } else {
        (-((-milli) / 1000)) as i32
    }
}

/// The longest side of the downscale by `factor`: the natural side times the
/// factor, and the largest side there is where that is larger.
pub open spec fn scaled_side(native: u32, factor: u32) -> u32 {
    if native * factor > u32::MAX {
        u32::MAX
    } else {
        (native * factor) as u32
    }
}

/// The natural side of the image that the parameters speak of.
pub open spec fn native_side(config: TestConfig) -> u32 {
    match config.native_size {
        Some(side) => side,
        None => DEFAULT_NATIVE_SIZE,
    }
}

/// The perturbation at `index` of the matrix under the parameters `config`.
pub open spec fn planned_transform(config: TestConfig, index: int) -> Transform {
    if index == 0 {
        Transform::Downscale { longest_side: scaled_side(native_side(config), 1) }
    } else if index == 1 {
        Transform::Downscale { longest_side: scaled_side(native_side(config), 2) }
    } else if index == 2 {
        Transform::Downscale { longest_side: scaled_side(native_side(config), 3) }
    } else if index == 3 {
        Transform::Downscale { longest_side: scaled_side(native_side(config), 4) }
    } else if index == 4 {
        Transform::Blur { sigma_milli: config.blur_light_sigma_milli }
    } else if index == 5 {
        Transform::Blur { sigma_milli: config.blur_heavy_sigma_milli }
    } else if index == 6 {
        Transform::Contrast { amount_milli: config.contrast_milli }
    } else if index == 7 {
        Transform::Contrast { amount_milli: negated(config.contrast_milli) }
    } else if index == 8 {
        Transform::Contrast { amount_milli: config.contrast_strict_milli }
    } else if index == 9 {
        Transform::Contrast { amount_milli: negated(config.contrast_strict_milli) }
    } else if index == 10 {
        Transform::Luminance { offset: config.luminance }
    } else if index == 11 {
        Transform::Luminance { offset: negated(config.luminance) }
    } else if index == 12 {
        Transform::Luminance { offset: config.luminance_strict }
    } else if index == 13 {
        Transform::Luminance { offset: negated(config.luminance_strict) }
    } else if index == 14 {
        Transform::Hue { degrees: whole_degrees(config.hue_milli) }
    } else if index == 15 {
        Transform::Hue { degrees: whole_degrees(negated(config.hue_milli)) }
    } else if index == 16 {
        Transform::Hue { degrees: whole_degrees(config.hue_strict_milli) }
    } else if index == 17 {
        Transform::Hue { degrees: whole_degrees(negated(config.hue_strict_milli)) }
    } else if index == 18 {
        Transform::Saturation { percent_milli: config.saturation_milli }
    } else if index == 19 {
        Transform::Saturation { percent_milli: negated(config.saturation_milli) }
    } else if index == 20 {
        Transform::Saturation { percent_milli: config.saturation_strict_milli }
    } else {
        Transform::Saturation { percent_milli: negated(config.saturation_strict_milli) }
    }
}

/// Whether `plan` is the matrix under the parameters `config`: the 22
/// variants in their order, each with its name and its perturbation.
pub open spec fn is_plan_of(plan: Seq<Variant>, config: TestConfig) -> bool {
    &&& plan.len() == VARIANT_COUNT
    &&& forall|i: int|
        0 <= i < VARIANT_COUNT ==> (#[trigger] plan[i]).name@ == variant_names()[i]
            && plan[i].transform == planned_transform(config, i)
}

/// The magnitude `amount` in the opposite direction.
pub fn negate(amount: i32) -> (opposite: i32)
    ensures
        opposite == negated(amount),
{
    if amount == i32::MIN {
        i32::MAX
    } else {
        -amount
    }
}

/// The whole degrees of an angle in thousandths of a degree.
pub fn degrees_of(milli: i32) -> (degrees: i32)
    ensures
        degrees == whole_degrees(milli),
{
    if milli >= 0 {
        milli / 1000
    } else {
        let magnitude: i64 = -(milli as i64);
        let whole: i64 = magnitude / 1000;
        (-whole) as i32
    }
}

/// The longest side of the downscale of an image of natural side `native`
/// by `factor`.
pub fn scale_side(native: u32, factor: u32) -> (side: u32)
    ensures
        side == scaled_side(native, factor),
{
    match native.checked_mul(factor) {
        Some(side) => side,
        None => u32::MAX,
    }
}

/// The perturbation at `index` of the matrix under the parameters `config`.
pub fn transform_at(config: &TestConfig, index: usize) -> (transform: Transform)
    requires
        index < VARIANT_COUNT,
    ensures
        transform == planned_transform(*config, index as int),
{
    let native = match config.native_size {
        Some(side) => side,
        None => DEFAULT_NATIVE_SIZE,
    };
    match index {
        0 => Transform::Downscale { longest_side: scale_side(native, 1) },
        1 => Transform::Downscale { longest_side: scale_side(native, 2) },
        2 => Transform::Downscale { longest_side: scale_side(native, 3) },
        3 => Transform::Downscale { longest_side: scale_side(native, 4) },
        4 => Transform::Blur { sigma_milli: config.blur_light_sigma_milli },
        5 => Transform::Blur { sigma_milli: config.blur_heavy_sigma_milli },
        6 => Transform::Contrast { amount_milli: config.contrast_milli },
        7 => Transform::Contrast { amount_milli: negate(config.contrast_milli) },
        8 => Transform::Contrast { amount_milli: config.contrast_strict_milli },
        9 => Transform::Contrast { amount_milli: negate(config.contrast_strict_milli) },
        10 => Transform::Luminance { offset: config.luminance },
        11 => Transform::Luminance { offset: negate(config.luminance) },
        12 => Transform::Luminance { offset: config.luminance_strict },
        13 => Transform::Luminance { offset: negate(config.luminance_strict) },
        14 => Transform::Hue { degrees: degrees_of(config.hue_milli) },
        15 => Transform::Hue { degrees: degrees_of(negate(config.hue_milli)) },
        16 => Transform::Hue { degrees: degrees_of(config.hue_strict_milli) },
        17 => Transform::Hue { degrees: degrees_of(negate(config.hue_strict_milli)) },
        18 => Transform::Saturation { percent_milli: config.saturation_milli },
        19 => Transform::Saturation { percent_milli: negate(config.saturation_milli) },
        20 => Transform::Saturation { percent_milli: config.saturation_strict_milli },
        _ => Transform::Saturation { percent_milli: negate(config.saturation_strict_milli) },
    }
}

/// The matrix of variants under the parameters `config`.
///
/// The matrix depends on the parameters alone: the same parameters give the
/// same variants, in the same order.
pub fn variant_plan(config: &TestConfig) -> (plan: Vec<Variant>)
    ensures
        is_plan_of(plan@, *config),
{
    let mut plan: Vec<Variant> = Vec::new();
    let mut index: usize = 0;
    while index < VARIANT_COUNT
        invariant
            index <= VARIANT_COUNT,
            plan.len() == index,
            forall|i: int|
                0 <= i < index ==> (#[trigger] plan[i]).name@ == variant_names()[i]
                    && plan[i].transform == planned_transform(*config, i),
        decreases VARIANT_COUNT - index,
    {
        plan.push(Variant { name: variant_name(index), transform: transform_at(config, index) });
        index += 1;
    }
    plan
}

/// The matrix is fixed by the parameters: two plans under the same
/// parameters name the same variants in the same order, each with the same
/// perturbation.
pub proof fn lemma_plan_is_fixed(first: Seq<Variant>, second: Seq<Variant>, config: TestConfig)
    requires
        is_plan_of(first, config),
        is_plan_of(second, config),
    ensures
        first.len() == second.len(),
        forall|i: int|
            0 <= i < first.len() ==> (#[trigger] first[i]).name@ == second[i].name@
                && first[i].transform == second[i].transform,
{
    assert forall|i: int| 0 <= i < first.len() implies (#[trigger] first[i]).name@
        == second[i].name@ && first[i].transform == second[i].transform by {
        assert(second[i].name@ == variant_names()[i]);
    }
}

} // verus!
