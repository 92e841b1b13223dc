use qr_score::names::NameMap;
use qr_score::scorer::{calculate_score, collect_outcomes, grade_from_score};
use qr_score::types::{StressResults, Weights};

fn all_pass_stress() -> StressResults {
    let mut tests: NameMap<bool> = NameMap::new();
    for k in Weights::default().tests.keys() {
        tests.insert(k.clone(), true);
    }
    StressResults { tests, contrast_permille: 1000 }
}

fn weights_of(entries: &[(&str, u32)], contrast_ratio: u32) -> Weights {
    let mut tests: NameMap<u32> = NameMap::new();
    for (name, weight) in entries {
        tests.insert(name.to_string(), *weight);
    }
    Weights { tests, contrast_ratio }
}

fn stress_of(entries: &[(&str, bool)], contrast_permille: u32) -> StressResults {
    let mut tests: NameMap<bool> = NameMap::new();
    for (name, passed) in entries {
        tests.insert(name.to_string(), *passed);
    }
    StressResults { tests, contrast_permille }
}

#[test]
fn score_all_pass_high_contrast_is_100() {
    assert_eq!(calculate_score(&all_pass_stress(), &Weights::default()), 100);
}

#[test]
fn score_nothing_passes_is_zero() {
    assert_eq!(calculate_score(&StressResults::default(), &Weights::default()), 0);
}

#[test]
fn score_low_contrast_ratio_penalizes() {
    let mut stress = all_pass_stress();
    stress.contrast_permille = 20;
    let score = calculate_score(&stress, &Weights::default());
    assert!(score < 100, "low contrast ratio should reduce score, got {}", score);
}

#[test]
fn score_zero_total_weight_is_zero() {
    let mut weights = Weights::default();
    weights.tests.clear();
    weights.contrast_ratio = 0;
    assert_eq!(calculate_score(&all_pass_stress(), &weights), 0);
}

#[test]
fn score_partial_pass_is_between_bounds() {
    let mut stress = all_pass_stress();
    // fail all downscale tests
    for key in ["downscale_1x", "downscale_2x", "downscale_3x", "downscale_4x"] {
        stress.tests.insert(key.to_string(), false);
    }
    let score = calculate_score(&stress, &Weights::default());
    assert!(score > 0 && score < 100, "partial pass should score between 0 and 100, got {}", score);
}

#[test]
fn grade_boundaries() {
    assert_eq!(grade_from_score(100), "A");
    assert_eq!(grade_from_score(80), "A");
    assert_eq!(grade_from_score(79), "B");
    assert_eq!(grade_from_score(60), "B");
    assert_eq!(grade_from_score(59), "C");
    assert_eq!(grade_from_score(40), "C");
    assert_eq!(grade_from_score(39), "D");
    assert_eq!(grade_from_score(20), "D");
    assert_eq!(grade_from_score(19), "F");
    assert_eq!(grade_from_score(0), "F");
}

#[test]
fn grade_of_scores_beyond_100_is_a() {
    assert_eq!(grade_from_score(101), "A");
    assert_eq!(grade_from_score(u8::MAX), "A");
}

#[test]
fn score_exact_values_under_default_weights() {
    // All 30 points of the tests, and of the 70 of the contrast the share 0.35 / 0.7.
    let mut stress = all_pass_stress();
    stress.contrast_permille = 350;
    assert_eq!(calculate_score(&stress, &Weights::default()), 65);

    // The low contrast of 0.02 earns 2 of the 70 points.
    stress.contrast_permille = 20;
    assert_eq!(calculate_score(&stress, &Weights::default()), 32);

    // Without the four downscale tests 23 of the 30 points are left.
    let mut partial = all_pass_stress();
    for key in ["downscale_1x", "downscale_2x", "downscale_3x", "downscale_4x"] {
        partial.tests.insert(key.to_string(), false);
    }
    assert_eq!(calculate_score(&partial, &Weights::default()), 93);

    // Nothing but the full contrast.
    let only_contrast = StressResults { tests: NameMap::new(), contrast_permille: 700 };
    assert_eq!(calculate_score(&only_contrast, &Weights::default()), 70);
}

#[test]
fn score_contrast_saturates_at_seven_tenths() {
    let weights = Weights::default();
    let mut stress = all_pass_stress();
    stress.contrast_permille = 699;
    assert_eq!(calculate_score(&stress, &weights), 100);
    let none = StressResults { tests: NameMap::new(), contrast_permille: 699 };
    assert_eq!(calculate_score(&none, &weights), 70);
    let less = StressResults { tests: NameMap::new(), contrast_permille: 690 };
    assert_eq!(calculate_score(&less, &weights), 69);
    for contrast_permille in [700, 701, 1000, 5000, u32::MAX] {
        let mut stress = all_pass_stress();
        stress.contrast_permille = contrast_permille;
        assert_eq!(calculate_score(&stress, &weights), 100);
        let none = StressResults { tests: NameMap::new(), contrast_permille };
        assert_eq!(calculate_score(&none, &weights), 70);
    }
}

#[test]
fn score_rounds_to_the_nearest_and_a_half_upwards() {
    let weights = weights_of(&[("a", 1), ("b", 7)], 0);
    // 1 of 8 is 12.5 percent.
    assert_eq!(calculate_score(&stress_of(&[("a", true), ("b", false)], 0), &weights), 13);
    // 7 of 8 is 87.5 percent.
    assert_eq!(calculate_score(&stress_of(&[("a", false), ("b", true)], 0), &weights), 88);

    let thirds = weights_of(&[("a", 1), ("b", 1), ("c", 1)], 0);
    assert_eq!(
        calculate_score(&stress_of(&[("a", true), ("b", false), ("c", false)], 0), &thirds),
        33
    );
    assert_eq!(
        calculate_score(&stress_of(&[("a", true), ("b", true), ("c", false)], 0), &thirds),
        67
    );
}

#[test]
fn score_ignores_names_that_only_one_table_has() {
    let weights = weights_of(&[("known", 3), ("unprobed", 1)], 0);
    // A test that passed but has no weight counts nothing; a weighted test
    // without an outcome has not passed.
    let stress = stress_of(&[("known", true), ("unweighted", true)], 0);
    assert_eq!(calculate_score(&stress, &weights), 75);
    let stress = stress_of(&[("unweighted", true)], 0);
    assert_eq!(calculate_score(&stress, &weights), 0);
}

#[test]
fn score_is_zero_without_weight_whatever_the_outcome() {
    let none = weights_of(&[], 0);
    assert_eq!(calculate_score(&all_pass_stress(), &none), 0);
    assert_eq!(calculate_score(&StressResults::default(), &none), 0);
    let zeros = weights_of(&[("downscale_1x", 0), ("blur_light", 0)], 0);
    assert_eq!(calculate_score(&all_pass_stress(), &zeros), 0);
}

#[test]
fn score_does_not_fall_as_more_variants_pass() {
    let weights = Weights::default();
    let names = Weights::default().tests.keys();
    let mut stress = StressResults { tests: NameMap::new(), contrast_permille: 300 };
    for name in &names {
        stress.tests.insert(name.clone(), false);
    }
    let mut last = calculate_score(&stress, &weights);
    assert_eq!(last, 30);
    for name in &names {
        stress.tests.insert(name.clone(), true);
        let next = calculate_score(&stress, &weights);
        assert!(next >= last, "score fell from {} to {} at {}", last, next, name);
        last = next;
    }
    assert_eq!(last, 60);
}

#[test]
fn score_all_pass_is_100_under_other_weights() {
    let weights = weights_of(&[("a", 5), ("b", 0), ("c", 4_000_000_000)], 123);
    let stress = stress_of(&[("a", true), ("b", true), ("c", true), ("d", false)], 700);
    assert_eq!(calculate_score(&stress, &weights), 100);
}

#[test]
fn score_takes_the_largest_weights() {
    let weights = weights_of(&[("a", u32::MAX), ("b", u32::MAX), ("c", u32::MAX)], u32::MAX);
    let stress = stress_of(&[("a", true), ("b", false), ("c", true)], 350);
    // 2 of 4 shares from the tests and half a share from the contrast.
    assert_eq!(calculate_score(&stress, &weights), 63);
}

#[test]
fn score_does_not_depend_on_the_order_of_the_entries() {
    let weights = weights_of(&[("a", 5), ("b", 1), ("c", 9), ("d", 2)], 3);
    let shuffled = weights_of(&[("d", 2), ("b", 1), ("a", 5), ("c", 9)], 3);
    let stress = stress_of(&[("a", true), ("b", false), ("c", true), ("e", true)], 123);
    let reordered = stress_of(&[("e", true), ("c", true), ("b", false), ("a", true)], 123);
    let expected = calculate_score(&stress, &weights);
    assert_eq!(expected, 73);
    assert_eq!(calculate_score(&reordered, &weights), expected);
    assert_eq!(calculate_score(&stress, &shuffled), expected);
    assert_eq!(calculate_score(&reordered, &shuffled), expected);
}

#[test]
fn collect_outcomes_names_every_variant() {
    let mut outcomes = vec![false; 22];
    outcomes[0] = true;
    outcomes[5] = true;
    outcomes[21] = true;
    let tests = collect_outcomes(&outcomes);
    assert_eq!(tests.len(), 22);
    assert_eq!(tests.keys(), Weights::default().tests.keys());
    assert_eq!(tests.get("downscale_1x"), Some(true));
    assert_eq!(tests.get("downscale_2x"), Some(false));
    assert_eq!(tests.get("blur_heavy"), Some(true));
    assert_eq!(tests.get("saturation_strict_up"), Some(false));
    assert_eq!(tests.get("saturation_strict_down"), Some(true));
}

#[test]
fn collect_outcomes_counts_a_missing_answer_as_failed() {
    let tests = collect_outcomes(&vec![true, true]);
    assert_eq!(tests.len(), 22);
    assert_eq!(tests.get("downscale_1x"), Some(true));
    assert_eq!(tests.get("downscale_2x"), Some(true));
    assert_eq!(tests.get("downscale_3x"), Some(false));
    assert_eq!(tests.get("saturation_strict_down"), Some(false));

    let longer = collect_outcomes(&vec![true; 30]);
    assert_eq!(longer.len(), 22);
    assert_eq!(longer.values(), vec![true; 22]);
}
