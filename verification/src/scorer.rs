//! The stress run and the score that is made of its outcome.
//!
//! The score is the weighted share, in percent, of what an image passed:
//! each stress test with its weight, and the contrast measurement with a
//! weight of its own, of which it earns the share that its contrast has of
//! 0.7, and all of it from there on.

use crate::contrast::{contrast_spread, measure_contrast, TOP_BIN};
use crate::names::{
    as_map, has_name, lemma_lookup_at, lemma_rest_distinct, lemma_rest_lookup,
    lemma_same_mapping, lookup, names_distinct, place_of, NameMap,
};
use crate::types::{StressOutcome, StressResults, TestConfig, WeightTable, Weights};
use crate::variants::{
    is_plan_of, lemma_variant_names_distinct, variant_name, variant_names, variant_plan, Variant,
    VARIANT_COUNT,
};
use image::DynamicImage;
use vstd::arithmetic::div_mod::{lemma_div_is_ordered, lemma_fundamental_div_mod};
use vstd::prelude::*;

verus! {

/// The contrast, in thousandths, from which the contrast measurement earns
/// its whole weight.
pub const FULL_CONTRAST: u32 = 700;

/// The sum of the weights of `weights`.
pub open spec fn tests_weight(weights: Seq<(Seq<char>, u32)>) -> nat
    decreases weights.len(),
{
    if weights.len() == 0 {
        0
    } else {
        tests_weight(weights.drop_last()) + weights.last().1 as nat
    }
}

/// The sum of the weights of those tests of `weights` that `outcomes` mark
/// as passed. A test that `outcomes` do not name has not passed.
pub open spec fn passed_weight(
    weights: Seq<(Seq<char>, u32)>,
    outcomes: Seq<(Seq<char>, bool)>,
) -> nat
    decreases weights.len(),
{
    if weights.len() == 0 {
        0
    } else {
        passed_weight(weights.drop_last(), outcomes) + if lookup(outcomes, weights.last().0)
            == Some(true) {
            weights.last().1 as nat
        } else {
            0nat
        }
    }
}

/// The contrast that counts: the measurement, and no more than
/// [`FULL_CONTRAST`].
pub open spec fn counted_contrast(contrast_permille: u32) -> nat {
    if contrast_permille >= FULL_CONTRAST {
        FULL_CONTRAST as nat
    } else {
        contrast_permille as nat
    }
}

/// Seven hundred times what an outcome has earned: the passed weight, and of
/// the contrast weight the share that the counted contrast has of
/// [`FULL_CONTRAST`].
pub open spec fn earned(passed: nat, contrast_permille: u32, contrast_weight: u32) -> nat {
    FULL_CONTRAST as nat * passed + counted_contrast(contrast_permille) * contrast_weight as nat
}

/// The score of an outcome that has earned `earned / 700` of the weight
/// `total`: the share in percent, rounded to the nearest whole number, a half
/// upwards, and at most 100. Without any weight the score is 0.
pub open spec fn score_of(earned: nat, total: nat) -> nat {
    if total == 0 {
        0
    } else {
        let rounded = (2 * earned + 7 * total) / (14 * total);
        if rounded > 100 {
            100
        } else {
            rounded as nat
        }
    }
}

/// The weight that `weights` share out: that of all tests and that of the
/// contrast measurement.
pub open spec fn total_weight(weights: WeightTable) -> nat {
    tests_weight(weights.tests) + weights.contrast_ratio as nat
}

/// The score of the outcome `stress` under `weights`.
pub open spec fn score(stress: StressOutcome, weights: WeightTable) -> nat {
    score_of(
        earned(
            passed_weight(weights.tests, stress.tests),
            stress.contrast_permille,
            weights.contrast_ratio,
        ),
        total_weight(weights),
    )
}

/// What has passed weighs no more than all tests together, and all tests
/// together no more than as many largest weights.
pub proof fn lemma_weight_bounds(weights: Seq<(Seq<char>, u32)>, outcomes: Seq<(Seq<char>, bool)>)
    ensures
        passed_weight(weights, outcomes) <= tests_weight(weights),
        tests_weight(weights) <= weights.len() * u32::MAX,
    decreases weights.len(),
{
    if weights.len() > 0 {
        lemma_weight_bounds(weights.drop_last(), outcomes);
        assert(weights.len() * u32::MAX == (weights.len() - 1) * u32::MAX + u32::MAX)
            by (nonlinear_arith);
    }
}

/// The score is the whole number nearest to the share of the weight that was
/// earned, in percent, as long as that share is no more than the whole:
/// `earned / 7` is a hundred times what was earned, and the score `s` has
/// `s - 1/2 <= (earned / 7) / total < s + 1/2`.
pub proof fn lemma_score_is_nearest(earned: nat, total: nat)
    requires
        total > 0,
        earned <= FULL_CONTRAST * total,
    ensures
        score_of(earned, total) <= 100,
        14 * total * score_of(earned, total) <= 2 * earned + 7 * total,
        2 * earned + 7 * total < 14 * total * (score_of(earned, total) + 1),
{
    let numerator = (2 * earned + 7 * total) as int;
    let denominator = (14 * total) as int;
    lemma_fundamental_div_mod(numerator, denominator);
    assert(numerator <= 1407 * total) by (nonlinear_arith)
        requires
            numerator == 2 * earned + 7 * total,
            earned <= 700 * total,
    ;
    lemma_div_is_ordered(numerator, 1407 * (total as int), denominator);
    assert((1407 * (total as int)) / (14 * (total as int)) == 100) by (nonlinear_arith)
        requires
            total > 0,
    ;
    let quotient = numerator / denominator;
    assert(denominator * quotient + numerator % denominator == numerator);
    assert(0 <= numerator % denominator < denominator);
    assert(14 * total * quotient == denominator * quotient) by (nonlinear_arith)
        requires
            denominator == 14 * total,
    ;
    assert(14 * total * (quotient + 1) == denominator * quotient + denominator)
        by (nonlinear_arith)
        requires
            denominator == 14 * total,
    ;
}

/// An outcome earns no more than the weight that there is to share out, so
/// its score is the nearest whole number of its share in percent and needs
/// no cap.
pub proof fn lemma_score_is_the_share(stress: StressOutcome, weights: WeightTable)
    requires
        total_weight(weights) > 0,
    ensures
        score(stress, weights) <= 100,
        14 * total_weight(weights) * score(stress, weights) <= 2 * earned(
            passed_weight(weights.tests, stress.tests),
            stress.contrast_permille,
            weights.contrast_ratio,
        ) + 7 * total_weight(weights),
        2 * earned(
            passed_weight(weights.tests, stress.tests),
            stress.contrast_permille,
            weights.contrast_ratio,
        ) + 7 * total_weight(weights) < 14 * total_weight(weights) * (score(stress, weights) + 1),
{
    let passed = passed_weight(weights.tests, stress.tests);
    let all = tests_weight(weights.tests);
    let counted = counted_contrast(stress.contrast_permille);
    lemma_weight_bounds(weights.tests, stress.tests);
    assert(700 * passed + counted * weights.contrast_ratio <= 700 * (all
        + weights.contrast_ratio)) by (nonlinear_arith)
        requires
            passed <= all,
            counted <= 700,
    ;
    lemma_score_is_nearest(
        earned(passed, stress.contrast_permille, weights.contrast_ratio),
        total_weight(weights),
    );
}

/// Without any weight the score is 0, whatever the outcome.
pub proof fn lemma_no_weight_no_score(stress: StressOutcome, weights: WeightTable)
    requires
        total_weight(weights) == 0,
    ensures
        score(stress, weights) == 0,
{
}

/// The score does not fall as more is earned.
pub proof fn lemma_score_monotone(less: nat, more: nat, total: nat)
    requires
        less <= more,
    ensures
        score_of(less, total) <= score_of(more, total),
{
    if total > 0 {
        lemma_div_is_ordered(
            (2 * less + 7 * total) as int,
            (2 * more + 7 * total) as int,
            (14 * total) as int,
        );
    }
}

/// Where every test that passed in one outcome passed in another, the other
/// has passed no less weight.
pub proof fn lemma_passed_weight_monotone(
    weights: Seq<(Seq<char>, u32)>,
    fewer: Seq<(Seq<char>, bool)>,
    more: Seq<(Seq<char>, bool)>,
)
    requires
        forall|name: Seq<char>|
            lookup(fewer, name) == Some(true) ==> lookup(more, name) == Some(true),
    ensures
        passed_weight(weights, fewer) <= passed_weight(weights, more),
    decreases weights.len(),
{
    if weights.len() > 0 {
        lemma_passed_weight_monotone(weights.drop_last(), fewer, more);
    }
}

/// The score does not fall as more variants pass: where two outcomes have
/// the same contrast and every variant that passed in the first passed in the
/// second, the second scores no less under the same weights.
pub proof fn lemma_score_grows_with_passes(
    fewer: StressOutcome,
    more: StressOutcome,
    weights: WeightTable,
)
    requires
        fewer.contrast_permille == more.contrast_permille,
        forall|name: Seq<char>|
            lookup(fewer.tests, name) == Some(true) ==> lookup(more.tests, name) == Some(true),
    ensures
        score(fewer, weights) <= score(more, weights),
{
    lemma_passed_weight_monotone(weights.tests, fewer.tests, more.tests);
    let less_earned = earned(
        passed_weight(weights.tests, fewer.tests),
        fewer.contrast_permille,
        weights.contrast_ratio,
    );
    let more_earned = earned(
        passed_weight(weights.tests, more.tests),
        more.contrast_permille,
        weights.contrast_ratio,
    );
    assert(less_earned <= more_earned) by (nonlinear_arith)
        requires
            less_earned == 700 * passed_weight(weights.tests, fewer.tests) + counted_contrast(
                fewer.contrast_permille,
            ) * weights.contrast_ratio,
            more_earned == 700 * passed_weight(weights.tests, more.tests) + counted_contrast(
                more.contrast_permille,
            ) * weights.contrast_ratio,
            fewer.contrast_permille == more.contrast_permille,
            passed_weight(weights.tests, fewer.tests) <= passed_weight(
                weights.tests,
                more.tests,
            ),
    ;
    lemma_score_monotone(less_earned, more_earned, total_weight(weights));
}

/// Where every weighted test has passed, all the weight of the tests was
/// passed.
pub proof fn lemma_all_passed(weights: Seq<(Seq<char>, u32)>, outcomes: Seq<(Seq<char>, bool)>)
    requires
        forall|i: int|
            0 <= i < weights.len() ==> lookup(outcomes, (#[trigger] weights[i]).0) == Some(true),
    ensures
        passed_weight(weights, outcomes) == tests_weight(weights),
    decreases weights.len(),
{
    if weights.len() > 0 {
        let rest = weights.drop_last();
        assert forall|i: int| 0 <= i < rest.len() implies lookup(outcomes, (#[trigger] rest[i]).0)
            == Some(true) by {
            assert(rest[i] == weights[i]);
        }
        lemma_all_passed(rest, outcomes);
        assert(weights.last() == weights[weights.len() - 1]);
    }
}

/// An outcome in which every weighted test has passed and the contrast is
/// 0.7 or more scores 100, where there is any weight at all.
pub proof fn lemma_full_marks(stress: StressOutcome, weights: WeightTable)
    requires
        total_weight(weights) > 0,
        stress.contrast_permille >= FULL_CONTRAST,
        forall|i: int|
            0 <= i < weights.tests.len() ==> lookup(
                stress.tests,
                (#[trigger] weights.tests[i]).0,
            ) == Some(true),
    ensures
        score(stress, weights) == 100,
{
    lemma_all_passed(weights.tests, stress.tests);
    let total = total_weight(weights);
    let all = earned(
        tests_weight(weights.tests),
        stress.contrast_permille,
        weights.contrast_ratio,
    );
    assert(all == 700 * total) by (nonlinear_arith)
        requires
            all == 700 * tests_weight(weights.tests) + 700 * weights.contrast_ratio,
            total == tests_weight(weights.tests) + weights.contrast_ratio,
    ;
    assert((2 * (700 * (total as int)) + 7 * (total as int)) / (14 * (total as int)) == 100)
        by (nonlinear_arith)
        requires
            total > 0,
    ;
}

/// Taking one entry out of a weight table takes its weight out of the sum,
/// and out of what has passed where its test has passed.
proof fn lemma_weight_without(
    weights: Seq<(Seq<char>, u32)>,
    outcomes: Seq<(Seq<char>, bool)>,
    at: int,
)
    requires
        0 <= at < weights.len(),
    ensures
        tests_weight(weights) == tests_weight(weights.remove(at)) + weights[at].1,
        passed_weight(weights, outcomes) == passed_weight(weights.remove(at), outcomes) + if lookup(
            outcomes,
            weights[at].0,
        ) == Some(true) {
            weights[at].1 as nat
        } else {
            0nat
        },
    decreases weights.len(),
{
    if at == weights.len() - 1 {
        assert(weights.remove(at) =~= weights.drop_last());
    } else {
        lemma_weight_without(weights.drop_last(), outcomes, at);
        assert(weights.remove(at).drop_last() =~= weights.drop_last().remove(at));
        assert(weights.remove(at).last() == weights.last());
    }
}

/// Two outcome tables that stand for the same mapping mark the same tests as
/// passed: what has passed does not depend on the order of the outcomes.
pub proof fn lemma_outcome_order_is_irrelevant(
    weights: Seq<(Seq<char>, u32)>,
    first: Seq<(Seq<char>, bool)>,
    second: Seq<(Seq<char>, bool)>,
)
    requires
        as_map(first) == as_map(second),
    ensures
        passed_weight(weights, first) == passed_weight(weights, second),
    decreases weights.len(),
{
    if weights.len() > 0 {
        lemma_outcome_order_is_irrelevant(weights.drop_last(), first, second);
        lemma_same_mapping(first, second);
    }
}

/// Two weight tables of distinct names that stand for the same mapping weigh
/// the same, in all and in what has passed: the order of the weights does not
/// matter.
pub proof fn lemma_weight_order_is_irrelevant(
    first: Seq<(Seq<char>, u32)>,
    second: Seq<(Seq<char>, u32)>,
    outcomes: Seq<(Seq<char>, bool)>,
)
    requires
        names_distinct(first),
        names_distinct(second),
        as_map(first) == as_map(second),
    ensures
        tests_weight(first) == tests_weight(second),
        passed_weight(first, outcomes) == passed_weight(second, outcomes),
    decreases first.len(),
{
    lemma_same_mapping(first, second);
    if first.len() == 0 {
        if second.len() > 0 {
            assert(has_name(second, second[0].0));
        }
    } else {
        let name = first.last().0;
        let last = first.len() - 1;
        lemma_lookup_at(first, last);
        let at = place_of(second, name);
        lemma_lookup_at(second, at);
        assert(second[at].0 == name && second[at].1 == first.last().1);
        assert(second[at] == first.last());
        let first_rest = first.drop_last();
        let second_rest = second.remove(at);
        assert(first.remove(last) =~= first_rest);
        assert forall|other: Seq<char>| #[trigger]
            has_name(first_rest, other) == has_name(second_rest, other) && lookup(
                first_rest,
                other,
            ) == lookup(second_rest, other) by {
            lemma_rest_lookup(first, last, other);
            lemma_rest_lookup(second, at, other);
        }
        assert(as_map(first_rest) =~= as_map(second_rest));
        lemma_rest_distinct(first, last);
        lemma_rest_distinct(second, at);
        assert(first.remove(last) =~= first_rest);
        lemma_weight_order_is_irrelevant(first_rest, second_rest, outcomes);
        lemma_weight_without(second, outcomes, at);
    }
}

/// The score is a matter of the two mappings, not of the order of their
/// entries: outcomes and weights that stand for the same mappings, with the
/// same contrast and contrast weight, score the same.
pub proof fn lemma_score_of_the_mappings(
    stress: StressOutcome,
    weights: WeightTable,
    other_stress: StressOutcome,
    other_weights: WeightTable,
)
    requires
        names_distinct(weights.tests),
        names_distinct(other_weights.tests),
        as_map(weights.tests) == as_map(other_weights.tests),
        as_map(stress.tests) == as_map(other_stress.tests),
        weights.contrast_ratio == other_weights.contrast_ratio,
        stress.contrast_permille == other_stress.contrast_permille,
    ensures
        score(stress, weights) == score(other_stress, other_weights),
{
    lemma_weight_order_is_irrelevant(weights.tests, other_weights.tests, stress.tests);
    lemma_outcome_order_is_irrelevant(other_weights.tests, stress.tests, other_stress.tests);
}

/// Scores the outcome of a stress run under a weight table.
///
/// A weighted test counts where the outcome marks it as passed; a test of
/// the outcome that the table does not name counts nothing.
pub fn calculate_score(stress: &StressResults, weights: &Weights) -> (points: u8)
    ensures
        points == score(stress@, weights@),
        points <= 100,
{
    let count = weights.tests.len();
    let mut all: u128 = 0;
    let mut passed: u128 = 0;
    let mut i: usize = 0;
    while i < count
        invariant
            i <= count,
            count == weights.tests@.len(),
            all == tests_weight(weights.tests@.take(i as int)),
            passed == passed_weight(weights.tests@.take(i as int), stress.tests@),
        decreases count - i,
    {
        let (name, weight) = weights.tests.entry(i);
        proof {
            let seen = weights.tests@.take(i as int);
            let next = weights.tests@.take(i + 1);
            assert(next.drop_last() =~= seen);
            assert(next.last() == weights.tests@[i as int]);
            lemma_weight_bounds(seen, stress.tests@);
            assert(seen.len() * u32::MAX <= usize::MAX * u32::MAX) by (nonlinear_arith)
                requires
                    seen.len() <= usize::MAX,
            ;
        }
        all = all + weight as u128;
        let outcome = stress.tests.get(name.as_str());
        if let Some(true) = outcome {
            passed = passed + weight as u128;
        }
        i += 1;
    }
    proof {
        assert(weights.tests@.take(count as int) =~= weights.tests@);
        lemma_weight_bounds(weights.tests@, stress.tests@);
        assert(weights.tests@.len() * u32::MAX <= usize::MAX * u32::MAX) by (nonlinear_arith)
            requires
                weights.tests@.len() <= usize::MAX,
        ;
    }
    let total: u128 = all + weights.contrast_ratio as u128;
    if total == 0 {
        return 0;
    }
    let counted: u128 = if stress.contrast_permille >= FULL_CONTRAST {
        FULL_CONTRAST as u128
    } else {
        stress.contrast_permille as u128
    };
    assert(counted * weights.contrast_ratio as u128 <= 700 * u32::MAX) by (nonlinear_arith)
        requires
            counted <= 700,
            weights.contrast_ratio <= u32::MAX,
    ;
    let earned: u128 = 700 * passed + counted * weights.contrast_ratio as u128;
    let rounded: u128 = (2 * earned + 7 * total) / (14 * total);
    if rounded > 100 {
        100
    } else {
        rounded as u8
    }
}

/// The letter that a score earns: A from 80, B from 60, C from 40, D from
/// 20, and F below.
pub open spec fn grade_of(score: u8) -> Seq<char> {
    if score >= 80 {
        "A"@
    } else if score >= 60 {
        "B"@
    } else if score >= 40 {
        "C"@
    } else if score >= 20 {
        "D"@
    } else {
        "F"@
    }
}

/// The letter grade of a score.
pub fn grade_from_score(score: u8) -> (grade: &'static str)
    ensures
        grade@ == grade_of(score),
{
    if score >= 80 {
        "A"
    } else if score >= 60 {
        "B"
    } else if score >= 40 {
        "C"
    } else if score >= 20 {
        "D"
    } else {
        "F"
    }
}

/// The outcome table of a stress run: every variant of the matrix, in its
/// order, with what `outcomes` say of it. A variant that `outcomes` do not
/// reach has not passed.
pub open spec fn outcome_entries(outcomes: Seq<bool>) -> Seq<(Seq<char>, bool)> {
    Seq::new(
        VARIANT_COUNT as nat,
        |i: int| (variant_names()[i], i < outcomes.len() && outcomes[i]),
    )
}

/// Joins the answers for the variants, given in the order of the matrix,
/// into one table by the variants' names.
pub fn collect_outcomes(outcomes: &Vec<bool>) -> (tests: NameMap<bool>)
    ensures
        tests@ == outcome_entries(outcomes@),
{
    let mut tests: NameMap<bool> = NameMap::new();
    let mut i: usize = 0;
    while i < VARIANT_COUNT
        invariant
            i <= VARIANT_COUNT,
            tests@ == outcome_entries(outcomes@).take(i as int),
        decreases VARIANT_COUNT - i,
    {
        let passed = i < outcomes.len() && outcomes[i];
        let name = variant_name(i).to_owned();
        proof {
            lemma_variant_names_distinct();
            let so_far = outcome_entries(outcomes@).take(i as int);
            assert(!has_name(so_far, name@));
            assert(so_far.push((name@, passed)) =~= outcome_entries(outcomes@).take(i + 1));
        }
        tests.insert(name, passed);
        i += 1;
    }
    assert(outcome_entries(outcomes@).take(VARIANT_COUNT as int) =~= outcome_entries(outcomes@));
    tests
}

/// Whether `stress` is an outcome that a stress run of `img` under `config`
/// may have: the contrast is measured on the bins that `luminance_bins` gave
/// for the image, and the tests are the variants of the matrix with what
/// `probe_all` answered for them.
pub open spec fn is_stress_outcome<B, P>(
    img: &DynamicImage,
    config: &TestConfig,
    luminance_bins: B,
    probe_all: P,
    stress: StressOutcome,
) -> bool where
    B: FnOnce(&DynamicImage) -> Vec<u16>,
    P: FnOnce(&DynamicImage, &Vec<Variant>) -> Vec<bool>,
 {
    exists|bins: Vec<u16>, plan: Vec<Variant>, outcomes: Vec<bool>|
        {
            &&& #[trigger] call_ensures(luminance_bins, (img,), bins)
            &&& is_plan_of(plan@, *config)
            &&& #[trigger] call_ensures(probe_all, (img, &plan), outcomes)
            &&& stress.contrast_permille == contrast_spread(bins@)
            &&& stress.tests == outcome_entries(outcomes@)
        }
}

/// The outcome of a stress run is fixed by the image and the parameters
/// where the two measuring functions are: where `luminance_bins` gives the
/// same bins whenever it is asked of the image, and `probe_all` the same
/// answers whenever it is asked of the image and the matrix, two runs have
/// the same outcome.
pub proof fn lemma_stress_outcome_is_fixed<B, P>(
    img: &DynamicImage,
    config: &TestConfig,
    luminance_bins: B,
    probe_all: P,
    first: StressOutcome,
    second: StressOutcome,
) where B: FnOnce(&DynamicImage) -> Vec<u16>, P: FnOnce(&DynamicImage, &Vec<Variant>) -> Vec<bool>
    requires
        is_stress_outcome(img, config, luminance_bins, probe_all, first),
        is_stress_outcome(img, config, luminance_bins, probe_all, second),
        forall|bins: Vec<u16>, other: Vec<u16>|
            #[trigger] call_ensures(luminance_bins, (img,), bins) && #[trigger] call_ensures(
                luminance_bins,
                (img,),
                other,
            ) ==> bins@ == other@,
        forall|plan: Vec<Variant>, again: Vec<Variant>, outcomes: Vec<bool>, others: Vec<bool>|
            is_plan_of(plan@, *config) && is_plan_of(again@, *config) && #[trigger] call_ensures(
                probe_all,
                (img, &plan),
                outcomes,
            ) && #[trigger] call_ensures(probe_all, (img, &again), others) ==> outcomes@
                == others@,
    ensures
        first == second,
{
}

/// Runs the stress tests of an image.
///
/// The contrast is measured once, on the untouched image: `luminance_bins`
/// gives, for every pixel, its relative luminance in thousandths. Then the
/// matrix of variants is handed to `probe_all`, which makes each variant,
/// tries to decode it, and answers for each, in the order of the matrix,
/// whether it was decoded. The answers are joined into one table by the
/// variants' names.
pub fn run_stress_tests<B, P>(
    img: &DynamicImage,
    config: &TestConfig,
    luminance_bins: B,
    probe_all: P,
) -> (stress: StressResults) where
    B: FnOnce(&DynamicImage) -> Vec<u16>,
    P: FnOnce(&DynamicImage, &Vec<Variant>) -> Vec<bool>,

    requires
        call_requires(luminance_bins, (img,)),
        forall|plan: &Vec<Variant>| call_requires(probe_all, (img, plan)),
    ensures
        is_stress_outcome(img, config, luminance_bins, probe_all, stress@),
        stress.tests@.len() == VARIANT_COUNT,
        stress.contrast_permille <= TOP_BIN,
{
    let bins = luminance_bins(img);
    let contrast_permille = measure_contrast(&bins);
    let plan = variant_plan(config);
    let outcomes = probe_all(img, &plan);
    let tests = collect_outcomes(&outcomes);
    StressResults { tests, contrast_permille }
}

/// Runs the stress tests of an image and scores their outcome under the
/// weights of `config`.
pub fn validate<B, P>(
    img: &DynamicImage,
    config: &TestConfig,
    luminance_bins: B,
    probe_all: P,
) -> (scored: (StressResults, u8)) where
    B: FnOnce(&DynamicImage) -> Vec<u16>,
    P: FnOnce(&DynamicImage, &Vec<Variant>) -> Vec<bool>,

    requires
        call_requires(luminance_bins, (img,)),
        forall|plan: &Vec<Variant>| call_requires(probe_all, (img, plan)),
    ensures
        is_stress_outcome(img, config, luminance_bins, probe_all, scored.0@),
        scored.1 == score(scored.0@, config.weights@),
        scored.1 <= 100,
{
    let stress = run_stress_tests(img, config, luminance_bins, probe_all);
    let points = calculate_score(&stress, &config.weights);
    (stress, points)
}

} // verus!
