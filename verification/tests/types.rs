use qr_score::names::NameMap;
use qr_score::types::{
    ErrorCorrectionLevel, QrMetadata, StressResults, TestConfig, Weights,
};

#[test]
fn test_config_default() {
    let config = TestConfig::default();
    assert_eq!(config.render_size, 400);
    assert_eq!(config.contrast_milli, 30_000);
    assert_eq!(config.contrast_strict_milli, 50_000);
    assert_eq!(config.luminance, 20);
    assert_eq!(config.luminance_strict, 40);
    assert_eq!(config.hue_milli, 45_000);
    assert_eq!(config.hue_strict_milli, 90_000);
    assert!(config.native_size.is_none());
}

#[test]
fn test_config_default_remaining_fields() {
    let config = TestConfig::default();
    assert_eq!(config.blur_light_sigma_milli, 1_000);
    assert_eq!(config.blur_heavy_sigma_milli, 2_000);
    assert_eq!(config.saturation_milli, 30_000);
    assert_eq!(config.saturation_strict_milli, 50_000);
    assert_eq!(config.weights.contrast_ratio, 70);
    assert_eq!(config.weights.tests.len(), 22);
}

#[test]
fn weights_default_sum_to_100() {
    let w = Weights::default();
    let sum: u32 = w.tests.values().iter().sum::<u32>() + w.contrast_ratio;
    assert_eq!(sum, 100);
}

#[test]
fn stress_results_default_all_false() {
    let sr = StressResults::default();
    assert!(sr.tests.is_empty());
    assert_eq!(sr.contrast_permille, 0);
}

#[test]
fn error_correction_level_display() {
    assert_eq!(format!("{}", ErrorCorrectionLevel::L.to_string()), "L");
    assert_eq!(format!("{}", ErrorCorrectionLevel::M.to_string()), "M");
    assert_eq!(format!("{}", ErrorCorrectionLevel::Q.to_string()), "Q");
    assert_eq!(format!("{}", ErrorCorrectionLevel::H.to_string()), "H");
}

#[test]
fn weights_default_has_expected_keys() {
    let w = Weights::default();
    let expected = [
        "downscale_1x", "downscale_2x", "downscale_3x", "downscale_4x",
        "blur_light", "blur_heavy",
        "contrast_up", "contrast_down", "contrast_strict_up", "contrast_strict_down",
        "luminance_up", "luminance_down", "luminance_strict_up", "luminance_strict_down",
        "hue_up", "hue_down", "hue_strict_up", "hue_strict_down",
        "saturation_up", "saturation_down", "saturation_strict_up", "saturation_strict_down",
    ];
    for key in expected {
        assert!(w.tests.contains_key(key), "missing weight key: {}", key);
    }
    assert_eq!(w.tests.len(), 22);
}

#[test]
fn weights_default_values() {
    let w = Weights::default();
    let expected = [
        ("downscale_1x", 1), ("downscale_2x", 2), ("downscale_3x", 2), ("downscale_4x", 2),
        ("blur_light", 2), ("blur_heavy", 1),
        ("contrast_up", 2), ("contrast_down", 2),
        ("contrast_strict_up", 1), ("contrast_strict_down", 1),
        ("luminance_up", 2), ("luminance_down", 2),
        ("luminance_strict_up", 1), ("luminance_strict_down", 1),
        ("hue_up", 1), ("hue_down", 1), ("hue_strict_up", 1), ("hue_strict_down", 1),
        ("saturation_up", 1), ("saturation_down", 1),
        ("saturation_strict_up", 1), ("saturation_strict_down", 1),
    ];
    for (key, weight) in expected {
        assert_eq!(w.tests.get(key), Some(weight), "weight of {}", key);
    }
    assert_eq!(w.contrast_ratio, 70);
}

#[test]
fn error_correction_level_default_is_m() {
    assert_eq!(ErrorCorrectionLevel::default(), ErrorCorrectionLevel::M);
    let meta = QrMetadata { error_correction: ErrorCorrectionLevel::default() };
    assert_eq!(meta.error_correction, ErrorCorrectionLevel::M);
}

#[test]
fn contrast_percent_rounds_to_nearest() {
    let mut sr = StressResults::default();
    assert_eq!(sr.contrast_percent(), 0);
    sr.contrast_permille = 4;
    assert_eq!(sr.contrast_percent(), 0);
    sr.contrast_permille = 5;
    assert_eq!(sr.contrast_percent(), 1);
    sr.contrast_permille = 994;
    assert_eq!(sr.contrast_percent(), 99);
    sr.contrast_permille = 995;
    assert_eq!(sr.contrast_percent(), 100);
    sr.contrast_permille = 1000;
    assert_eq!(sr.contrast_percent(), 100);
    sr.contrast_permille = u32::MAX;
    assert_eq!(sr.contrast_percent(), 100);
}

#[test]
fn name_map_starts_empty() {
    let table: NameMap<u32> = NameMap::new();
    assert!(table.is_empty());
    assert_eq!(table.len(), 0);
    assert_eq!(table.get("anything"), None);
    assert!(!table.contains_key("anything"));
    assert!(table.keys().is_empty());
    assert!(table.values().is_empty());
}

#[test]
fn name_map_insert_adds_and_replaces() {
    let mut table: NameMap<u32> = NameMap::new();
    assert_eq!(table.insert("first".to_string(), 1), None);
    assert_eq!(table.insert("second".to_string(), 2), None);
    assert_eq!(table.len(), 2);
    assert_eq!(table.get("first"), Some(1));
    assert_eq!(table.get("second"), Some(2));
    assert_eq!(table.get("third"), None);

    // A name that is there keeps its place and takes the new value.
    assert_eq!(table.insert("first".to_string(), 10), Some(1));
    assert_eq!(table.len(), 2);
    assert_eq!(table.get("first"), Some(10));
    assert_eq!(table.get("second"), Some(2));
    assert_eq!(table.keys(), vec!["first".to_string(), "second".to_string()]);
    assert_eq!(table.values(), vec![10, 2]);
    let (name, value) = table.entry(1);
    assert_eq!((name.as_str(), value), ("second", 2));
}

#[test]
fn name_map_clear_and_clone() {
    let mut table: NameMap<bool> = NameMap::new();
    table.insert("a".to_string(), true);
    table.insert("b".to_string(), false);
    let copy = table.clone();
    table.clear();
    assert!(table.is_empty());
    assert_eq!(table.get("a"), None);
    assert_eq!(copy.len(), 2);
    assert_eq!(copy.get("a"), Some(true));
    assert_eq!(copy.get("b"), Some(false));
}

#[test]
fn name_map_tells_similar_names_apart() {
    let mut table: NameMap<u32> = NameMap::new();
    table.insert("hue_up".to_string(), 1);
    table.insert("hue_up ".to_string(), 2);
    table.insert("".to_string(), 3);
    table.insert("Hue_up".to_string(), 4);
    assert_eq!(table.len(), 4);
    assert_eq!(table.get("hue_up"), Some(1));
    assert_eq!(table.get("hue_up "), Some(2));
    assert_eq!(table.get(""), Some(3));
    assert_eq!(table.get("Hue_up"), Some(4));
    assert_eq!(table.get("hue"), None);
}
