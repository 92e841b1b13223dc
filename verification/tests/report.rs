use qr_score::error::QrScoreError;
use qr_score::names::NameMap;
use qr_score::report::{failure_report, failure_report_of, report};
use qr_score::types::{
    ErrorCorrectionLevel, QrMetadata, StressResults, TestConfig, ValidationResult,
};

fn result_with(score: u8, contrast_permille: u32, level: Option<ErrorCorrectionLevel>) -> ValidationResult {
    let mut tests: NameMap<bool> = NameMap::new();
    tests.insert("blur_light".to_string(), true);
    tests.insert("blur_heavy".to_string(), false);
    ValidationResult {
        score,
        decodable: true,
        content: Some("https://example.com".to_string()),
        metadata: level.map(|error_correction| QrMetadata { error_correction }),
        stress_results: StressResults { tests, contrast_permille },
    }
}

#[test]
fn report_shows_the_result_with_its_grade() {
    let shown = report(result_with(85, 1000, Some(ErrorCorrectionLevel::Q)));
    assert_eq!(shown.score, 85);
    assert_eq!(shown.grade, "A");
    assert!(shown.decodable);
    assert_eq!(shown.content.as_deref(), Some("https://example.com"));
    assert_eq!(shown.results.len(), 2);
    assert_eq!(shown.results.get("blur_light"), Some(true));
    assert_eq!(shown.results.get("blur_heavy"), Some(false));
    assert_eq!(shown.contrast_ratio, 100);
    assert_eq!(shown.error_correction.as_deref(), Some("Q"));
}

#[test]
fn report_grades_every_band() {
    for (score, grade) in [(100, "A"), (80, "A"), (79, "B"), (60, "B"), (59, "C"), (40, "C"),
        (39, "D"), (20, "D"), (19, "F"), (0, "F")]
    {
        assert_eq!(report(result_with(score, 0, None)).grade, grade);
    }
}

#[test]
fn report_shows_the_contrast_in_percent_and_no_level_where_none_is_known() {
    let shown = report(result_with(50, 345, None));
    assert_eq!(shown.contrast_ratio, 35);
    assert_eq!(shown.error_correction, None);
    assert_eq!(report(result_with(50, 344, None)).contrast_ratio, 34);
    for (level, letter) in [
        (ErrorCorrectionLevel::L, "L"),
        (ErrorCorrectionLevel::M, "M"),
        (ErrorCorrectionLevel::Q, "Q"),
        (ErrorCorrectionLevel::H, "H"),
    ] {
        assert_eq!(report(result_with(50, 0, Some(level))).error_correction.as_deref(), Some(letter));
    }
}

#[test]
fn failure_shows_no_score_and_the_lowest_grade() {
    let failures = [
        (QrScoreError::ImageLoad("bad magic".to_string()), "Failed to load image: bad magic"),
        (QrScoreError::DecodeFailed, "No QR code found in image"),
        (QrScoreError::InvalidSvg("no root".to_string()), "Invalid SVG: no root"),
        (QrScoreError::RenderFailed, "Failed to render SVG to PNG"),
        (
            QrScoreError::DimensionsTooLarge { width: 10_001, height: 7, max_dimension: 10_000 },
            "Image too large: 10001x7 exceeds maximum 10000x10000",
        ),
        (
            QrScoreError::DimensionOverflow { width: 70_000, height: 70_000 },
            "Dimension overflow: 70000 x 70000 overflows",
        ),
    ];
    for (failure, text) in failures {
        let shown = failure_report(&failure);
        assert_eq!(shown.score, 0);
        assert_eq!(shown.grade, "F");
        assert!(!shown.decodable);
        assert_eq!(shown.error, text);
    }
}

#[test]
fn failure_of_a_text_shows_the_text() {
    let shown = failure_report_of("Failed to read stdin: broken pipe".to_string());
    assert_eq!(shown.score, 0);
    assert_eq!(shown.grade, "F");
    assert!(!shown.decodable);
    assert_eq!(shown.error, "Failed to read stdin: broken pipe");
}

#[test]
fn render_size_is_never_below_the_natural_size() {
    let config = TestConfig::default();
    assert_eq!(config.render_target(0), 400);
    assert_eq!(config.render_target(399), 400);
    assert_eq!(config.render_target(400), 400);
    assert_eq!(config.render_target(401), 401);
    assert_eq!(config.render_target(u32::MAX), u32::MAX);
}

#[test]
fn config_takes_a_render_size_and_a_natural_size() {
    let config = TestConfig::default().with_render_size(Some(512));
    assert_eq!(config.render_size, 512);
    assert_eq!(config.luminance, 20);
    assert_eq!(config.weights.tests.len(), 22);
    let same = config.clone().with_render_size(None);
    assert_eq!(same.render_size, 512);
    assert!(same.native_size.is_none());
    let sized = same.with_native_size(57);
    assert_eq!(sized.native_size, Some(57));
    assert_eq!(sized.render_size, 512);
    assert_eq!(sized.hue_milli, 45_000);
    assert_eq!(sized.weights.contrast_ratio, 70);
}
