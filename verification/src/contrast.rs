//! The contrast measurement: the spread between the 5th and the 95th
//! percentile of the luminance of an image's pixels.
//!
//! A pixel comes in as the bin of its relative luminance: the luminance, from
//! 0 to 1, in thousandths, rounded. The measurement is the distance, in bins,
//! between two percentiles of the histogram over the 1001 bins.

use vstd::prelude::*;

verus! {

/// The highest bin, that of luminance 1.
pub const TOP_BIN: u16 = 1000;

/// The bin that a pixel is counted in: a value above the highest bin counts
/// in the highest.
pub open spec fn bin_of(raw: u16) -> int {
    if raw > TOP_BIN {
        TOP_BIN as int
    } else {
        raw as int
    }
}

/// The number of pixels whose bin is `level`.
pub open spec fn count_at(bins: Seq<u16>, level: int) -> nat
    decreases bins.len(),
{
    if bins.len() == 0 {
        0
    } else {
        count_at(bins.drop_last(), level) + if bin_of(bins.last()) == level {
            1nat
        } else {
            0nat
        }
    }
}

/// The number of pixels whose bin is `level` or lower: the cumulative count
/// of the histogram at `level`.
pub open spec fn count_upto(bins: Seq<u16>, level: int) -> nat
    decreases bins.len(),
{
    if bins.len() == 0 {
        0
    } else {
        count_upto(bins.drop_last(), level) + if bin_of(bins.last()) <= level {
            1nat
        } else {
            0nat
        }
    }
}

/// The lowest bin from `from` on at which the cumulative count reaches
/// `target`, and the highest bin where none does.
pub open spec fn first_reaching(bins: Seq<u16>, target: nat, from: int) -> int
    decreases TOP_BIN - from,
{
    if from >= TOP_BIN || count_upto(bins, from) >= target {
        from
    } else {
        first_reaching(bins, target, from + 1)
    }
}

/// The lowest bin at which the cumulative count reaches `target`.
pub open spec fn percentile_bin(bins: Seq<u16>, target: nat) -> int {
    first_reaching(bins, target, 0)
}

/// The number of pixels that make up the lowest twentieth.
pub open spec fn low_target(bins: Seq<u16>) -> nat {
    bins.len() / 20
}

/// The number of pixels that make up all but the highest twentieth.
pub open spec fn high_target(bins: Seq<u16>) -> nat {
    (bins.len() - bins.len() / 20) as nat
}

/// The contrast of an image with the luminance bins `bins`, in thousandths
/// of the luminance range: the bin at which the cumulative count reaches 95%
/// of the pixels, less the bin at which it reaches 5% of them. An image
/// without pixels has no contrast.
pub open spec fn contrast_spread(bins: Seq<u16>) -> int {
    if bins.len() == 0 {
        0
    } else {
        percentile_bin(bins, high_target(bins)) - percentile_bin(bins, low_target(bins))
    }
}

/// The cumulative count at a bin is that at the bin below, and the count of
/// the bin itself.
pub proof fn lemma_count_step(bins: Seq<u16>, level: int)
    ensures
        count_upto(bins, level) == count_upto(bins, level - 1) + count_at(bins, level),
    decreases bins.len(),
{
    if bins.len() > 0 {
        lemma_count_step(bins.drop_last(), level);
    }
}

/// The cumulative count is nothing below the lowest bin, everything from the
/// highest bin on, and grows with the bin.
pub proof fn lemma_count_bounds(bins: Seq<u16>, level: int)
    ensures
        level < 0 ==> count_upto(bins, level) == 0,
        level >= TOP_BIN ==> count_upto(bins, level) == bins.len(),
        count_upto(bins, level) <= bins.len(),
        count_at(bins, level) <= bins.len(),
        count_upto(bins, level) <= count_upto(bins, level + 1),
    decreases bins.len(),
{
    if bins.len() > 0 {
        lemma_count_bounds(bins.drop_last(), level);
    }
}

/// The cumulative count does not fall as the bin rises.
pub proof fn lemma_count_monotone(bins: Seq<u16>, lower: int, upper: int)
    requires
        lower <= upper,
    ensures
        count_upto(bins, lower) <= count_upto(bins, upper),
    decreases upper - lower,
{
    if lower < upper {
        lemma_count_monotone(bins, lower, upper - 1);
        lemma_count_bounds(bins, upper - 1);
    }
}

/// What the search from `from` finds lies between `from` and the highest
/// bin, reaches the target where a bin does, and no bin between reaches it.
pub proof fn lemma_first_reaching(bins: Seq<u16>, target: nat, from: int)
    requires
        0 <= from <= TOP_BIN,
        target <= bins.len(),
    ensures
        from <= first_reaching(bins, target, from) <= TOP_BIN,
        count_upto(bins, first_reaching(bins, target, from)) >= target,
        forall|level: int|
            from <= level < first_reaching(bins, target, from) ==> count_upto(bins, level)
                < target,
    decreases TOP_BIN - from,
{
    if from >= TOP_BIN {
        lemma_count_bounds(bins, from);
    } else if count_upto(bins, from) >= target {
    } else {
        lemma_first_reaching(bins, target, from + 1);
    }
}

/// A percentile is the one bin at which the cumulative count reaches the
/// target while that of every lower bin falls short of it.
pub proof fn lemma_percentile_is_least(bins: Seq<u16>, target: nat)
    requires
        target <= bins.len(),
    ensures
        0 <= percentile_bin(bins, target) <= TOP_BIN,
        count_upto(bins, percentile_bin(bins, target)) >= target,
        forall|level: int|
            0 <= level < percentile_bin(bins, target) ==> count_upto(bins, level) < target,
{
    lemma_first_reaching(bins, target, 0);
}

/// The contrast lies between nothing and the whole range.
pub proof fn lemma_spread_in_range(bins: Seq<u16>)
    ensures
        0 <= contrast_spread(bins) <= TOP_BIN,
{
    if bins.len() > 0 {
        let low = low_target(bins);
        let high = high_target(bins);
        lemma_percentile_is_least(bins, low);
        lemma_percentile_is_least(bins, high);
        let p_low = percentile_bin(bins, low);
        let p_high = percentile_bin(bins, high);
        if p_high < p_low {
            assert(count_upto(bins, p_high) < low);
        }
    }
}

/// Where every pixel lies in the bins from `floor` to `ceiling`, the contrast
/// is at most their distance: an image of one colour has no contrast. This
/// holds of an image of twenty pixels or more, of an image without pixels,
/// and where `floor` is the lowest bin. In a smaller image the lowest
/// twentieth is no pixel at all, and the contrast is measured from the lowest
/// bin.
pub proof fn lemma_spread_at_most(bins: Seq<u16>, floor: int, ceiling: int)
    requires
        bins.len() >= 20 || bins.len() == 0 || floor == 0,
        0 <= floor <= ceiling <= TOP_BIN,
        forall|i: int| 0 <= i < bins.len() ==> floor <= bin_of(#[trigger] bins[i]) <= ceiling,
    ensures
        contrast_spread(bins) <= ceiling - floor,
{
    if bins.len() > 0 {
        let low = low_target(bins);
        let high = high_target(bins);
        lemma_percentile_is_least(bins, low);
        lemma_percentile_is_least(bins, high);
        lemma_count_within(bins, floor, ceiling);
        let p_low = percentile_bin(bins, low);
        let p_high = percentile_bin(bins, high);
        if p_low < floor {
            lemma_count_monotone(bins, p_low, floor - 1);
        }
        if p_high > ceiling {
            assert(count_upto(bins, ceiling) < high);
        }
    }
}

/// An image of one colour has no contrast. An image of fewer than twenty
/// pixels, of which the lowest twentieth is no pixel at all, is measured from
/// the lowest bin and has the contrast of its colour's bin.
pub proof fn lemma_uniform_has_no_contrast(bins: Seq<u16>, level: int)
    requires
        0 <= level <= TOP_BIN,
        forall|i: int| 0 <= i < bins.len() ==> bin_of(#[trigger] bins[i]) == level,
    ensures
        bins.len() >= 20 || bins.len() == 0 || level == 0 ==> contrast_spread(bins) == 0,
        0 < bins.len() < 20 ==> contrast_spread(bins) == level,
{
    lemma_spread_in_range(bins);
    if bins.len() >= 20 || bins.len() == 0 || level == 0 {
        lemma_spread_at_most(bins, level, level);
    }
    if 0 < bins.len() < 20 {
        lemma_count_within(bins, level, level);
        lemma_percentile_is_least(bins, low_target(bins));
        lemma_percentile_is_least(bins, high_target(bins));
        let p_high = percentile_bin(bins, high_target(bins));
        if p_high < level {
            lemma_count_monotone(bins, p_high, level - 1);
        }
        if p_high > level {
            assert(count_upto(bins, level) < high_target(bins));
        }
    }
}

/// Where at least a twentieth of the pixels lie in the bin `dark` or lower
/// and more than a twentieth lie in the bin `bright` or higher, the contrast
/// is at least the distance from `dark` to `bright`. So an image in black and
/// white with more than a twentieth of each has the full contrast.
pub proof fn lemma_spread_at_least(bins: Seq<u16>, dark: int, bright: int)
    requires
        bins.len() > 0,
        0 <= dark <= bright <= TOP_BIN,
        count_upto(bins, dark) >= low_target(bins),
        bins.len() - count_upto(bins, bright - 1) > low_target(bins),
    ensures
        contrast_spread(bins) >= bright - dark,
{
    let low = low_target(bins);
    let high = high_target(bins);
    lemma_percentile_is_least(bins, low);
    lemma_percentile_is_least(bins, high);
    let p_low = percentile_bin(bins, low);
    let p_high = percentile_bin(bins, high);
    if p_high < bright {
        lemma_count_monotone(bins, p_high, bright - 1);
    }
}

/// The contrast is a matter of the histogram alone: two images with the same
/// cumulative counts have the same contrast, in whatever order their pixels
/// come.
pub proof fn lemma_spread_of_the_histogram(bins: Seq<u16>, other: Seq<u16>)
    requires
        forall|level: int| count_upto(bins, level) == count_upto(other, level),
    ensures
        contrast_spread(bins) == contrast_spread(other),
{
    lemma_count_bounds(bins, TOP_BIN as int);
    lemma_count_bounds(other, TOP_BIN as int);
    assert(bins.len() == other.len());
    if bins.len() > 0 {
        lemma_same_search(bins, other, low_target(bins), 0);
        lemma_same_search(bins, other, high_target(bins), 0);
    }
}

/// Two images with the same cumulative counts reach a target in the same bin.
proof fn lemma_same_search(bins: Seq<u16>, other: Seq<u16>, target: nat, from: int)
    requires
        forall|level: int| count_upto(bins, level) == count_upto(other, level),
    ensures
        first_reaching(bins, target, from) == first_reaching(other, target, from),
    decreases TOP_BIN - from,
{
    if from < TOP_BIN && count_upto(bins, from) < target {
        lemma_same_search(bins, other, target, from + 1);
    }
}

/// Where every pixel lies in the bins from `floor` to `ceiling`, no pixel is
/// counted below `floor`, and all are counted at `ceiling`.
proof fn lemma_count_within(bins: Seq<u16>, floor: int, ceiling: int)
    requires
        forall|i: int| 0 <= i < bins.len() ==> floor <= bin_of(#[trigger] bins[i]) <= ceiling,
    ensures
        count_upto(bins, floor - 1) == 0,
        count_upto(bins, ceiling) == bins.len(),
    decreases bins.len(),
{
    if bins.len() > 0 {
        let rest = bins.drop_last();
        assert forall|i: int| 0 <= i < rest.len() implies floor <= bin_of(#[trigger] rest[i])
            <= ceiling by {
            assert(rest[i] == bins[i]);
        }
        lemma_count_within(rest, floor, ceiling);
        assert(bins.last() == bins[bins.len() - 1]);
    }
}

/// Counting one pixel more adds it to its own bin and to no other.
proof fn lemma_count_at_next(bins: Seq<u16>, i: int, level: int)
    requires
        0 <= i < bins.len(),
    ensures
        count_at(bins.take(i + 1), level) == count_at(bins.take(i), level) + if bin_of(bins[i])
            == level {
            1nat
        } else {
            0nat
        },
{
    assert(bins.take(i + 1).drop_last() =~= bins.take(i));
    assert(bins.take(i + 1).last() == bins[i]);
}

/// The histogram of `bins`: how many pixels fall in each of the 1001 bins.
fn histogram_of(bins: &Vec<u16>) -> (histogram: Vec<usize>)
    ensures
        histogram.len() == TOP_BIN + 1,
        forall|level: int| 0 <= level <= TOP_BIN ==> histogram[level] == count_at(bins@, level),
{
    let mut histogram: Vec<usize> = Vec::new();
    let mut level: usize = 0;
    while level <= TOP_BIN as usize
        invariant
            level <= TOP_BIN + 1,
            histogram.len() == level,
            forall|k: int| 0 <= k < level ==> histogram[k] == 0,
        decreases TOP_BIN + 1 - level,
    {
        histogram.push(0);
        level += 1;
    }
    let mut i: usize = 0;
    while i < bins.len()
        invariant
            i <= bins.len(),
            histogram.len() == TOP_BIN + 1,
            forall|k: int| 0 <= k <= TOP_BIN ==> histogram[k] == count_at(bins@.take(i as int), k),
        decreases bins.len() - i,
    {
        let raw = bins[i];
        let bin: usize = if raw > TOP_BIN {
            TOP_BIN as usize
        } else {
            raw as usize
        };
        proof {
            lemma_count_bounds(bins@.take(i as int), bin as int);
            assert forall|k: int| 0 <= k <= TOP_BIN implies count_at(bins@.take(i + 1), k)
                == count_at(bins@.take(i as int), k) + if k == bin {
                1nat
            } else {
                0nat
            } by {
                lemma_count_at_next(bins@, i as int, k);
            }
        }
        let count = histogram[bin];
        histogram.set(bin, count + 1);
        i += 1;
    }
    assert(bins@.take(bins.len() as int) =~= bins@);
    histogram
}

/// Measures the contrast of an image from the luminance bins of its pixels,
/// in thousandths of the luminance range.
///
/// The histogram is walked once: the bin at which the cumulative count first
/// reaches a twentieth of the pixels is noted on the way to the bin at which
/// it reaches all but a twentieth, where the walk ends.
pub fn measure_contrast(bins: &Vec<u16>) -> (spread: u32)
    ensures
        spread == contrast_spread(bins@),
        spread <= TOP_BIN,
{
    let total = bins.len();
    if total == 0 {
        return 0;
    }
    let histogram = histogram_of(bins);
    let low_count = total / 20;
    let high_count = total - low_count;
    let mut cumulative: usize = 0;
    let mut low: usize = 0;
    let mut high: usize = TOP_BIN as usize;
    let mut level: usize = 0;
    let mut found = false;
    proof {
        lemma_count_bounds(bins@, -1);
    }
    while !found
        invariant
            total == bins.len(),
            total > 0,
            low_count == low_target(bins@),
            high_count == high_target(bins@),
            histogram.len() == TOP_BIN + 1,
            forall|k: int| 0 <= k <= TOP_BIN ==> histogram[k] == count_at(bins@, k),
            level <= TOP_BIN,
            low <= level,
            !found ==> cumulative == count_upto(bins@, level - 1),
            !found ==> cumulative < high_count,
            !found && cumulative >= low_count ==> low == percentile_bin(bins@, low_count as nat),
            !found && cumulative < low_count ==> percentile_bin(bins@, low_count as nat)
                == first_reaching(bins@, low_count as nat, level as int),
            !found ==> percentile_bin(bins@, high_count as nat) == first_reaching(
                bins@,
                high_count as nat,
                level as int,
            ),
            found ==> low == percentile_bin(bins@, low_count as nat),
            found ==> high == percentile_bin(bins@, high_count as nat),
            found ==> low <= high <= TOP_BIN,
        decreases TOP_BIN + 1 - level + if found { 0int } else { 1int },
    {
        proof {
            lemma_count_step(bins@, level as int);
            lemma_count_bounds(bins@, level as int);
        }
        let before = cumulative;
        cumulative = cumulative + histogram[level];
        if before < low_count && cumulative >= low_count {
            low = level;
        }
        if cumulative >= high_count {
            high = level;
            found = true;
        } else {
            level += 1;
        }
    }
    (high - low) as u32
}

} // verus!
