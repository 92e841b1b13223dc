use qr_score::error::{decimal_text, QrScoreError};
use qr_score::{validate_dimensions, validate_dimensions_within, MAX_DIMENSION};

#[test]
fn error_display_image_load() {
    let err = QrScoreError::ImageLoad("invalid format".to_string());
    let msg = err.to_string();
    assert!(msg.contains("Failed to load image"));
    assert!(msg.contains("invalid format"));
}

#[test]
fn error_display_decode_failed() {
    let err = QrScoreError::DecodeFailed;
    assert!(err.to_string().contains("No QR code"));
}

#[test]
fn error_display_invalid_svg() {
    let err = QrScoreError::InvalidSvg("bad xml".to_string());
    let msg = err.to_string();
    assert!(msg.contains("Invalid SVG"));
    assert!(msg.contains("bad xml"));
}

#[test]
fn error_display_render_failed() {
    assert!(QrScoreError::RenderFailed.to_string().contains("render SVG"));
}

#[test]
fn error_display_dimensions_too_large() {
    let err = QrScoreError::DimensionsTooLarge { width: 20000, height: 20000, max_dimension: 10000 };
    let msg = err.to_string();
    assert!(msg.contains("20000"));
    assert!(msg.contains("10000"));
}

#[test]
fn error_display_dimension_overflow() {
    let err = QrScoreError::DimensionOverflow { width: u32::MAX, height: u32::MAX };
    assert!(err.to_string().contains("overflow"));
}

#[test]
fn error_messages_are_exact() {
    assert_eq!(
        QrScoreError::ImageLoad("invalid format".to_string()).to_string(),
        "Failed to load image: invalid format"
    );
    assert_eq!(QrScoreError::DecodeFailed.to_string(), "No QR code found in image");
    assert_eq!(QrScoreError::InvalidSvg("bad xml".to_string()).to_string(), "Invalid SVG: bad xml");
    assert_eq!(QrScoreError::RenderFailed.to_string(), "Failed to render SVG to PNG");
    assert_eq!(
        QrScoreError::DimensionsTooLarge { width: 20000, height: 3, max_dimension: 10000 }
            .to_string(),
        "Image too large: 20000x3 exceeds maximum 10000x10000"
    );
    assert_eq!(
        QrScoreError::DimensionOverflow { width: u32::MAX, height: 70000 }.to_string(),
        "Dimension overflow: 4294967295 x 70000 overflows"
    );
}

#[test]
fn decimal_text_of_numbers() {
    assert_eq!(decimal_text(0), "0");
    assert_eq!(decimal_text(7), "7");
    assert_eq!(decimal_text(10), "10");
    assert_eq!(decimal_text(1234567890), "1234567890");
    assert_eq!(decimal_text(u32::MAX), "4294967295");
}

#[test]
fn dimensions_within_the_limit_pass() {
    assert_eq!(MAX_DIMENSION, 10_000);
    assert!(validate_dimensions(1, 1).is_ok());
    assert!(validate_dimensions(0, 0).is_ok());
    assert!(validate_dimensions(10_000, 10_000).is_ok());
}

#[test]
fn a_side_over_the_limit_is_too_large() {
    match validate_dimensions(10_001, 1) {
        Err(QrScoreError::DimensionsTooLarge { width, height, max_dimension }) => {
            assert_eq!((width, height, max_dimension), (10_001, 1, 10_000));
        }
        other => panic!("expected DimensionsTooLarge, got {:?}", other),
    }
    assert!(matches!(
        validate_dimensions(5, 10_001),
        Err(QrScoreError::DimensionsTooLarge { width: 5, height: 10_001, max_dimension: 10_000 })
    ));
    assert!(matches!(
        validate_dimensions(u32::MAX, u32::MAX),
        Err(QrScoreError::DimensionsTooLarge { .. })
    ));
}

#[test]
fn a_pixel_count_beyond_32_bits_overflows() {
    assert!(matches!(
        validate_dimensions_within(70_000, 70_000, 100_000),
        Err(QrScoreError::DimensionOverflow { width: 70_000, height: 70_000 })
    ));
    assert!(validate_dimensions_within(65_535, 65_537, 100_000).is_ok());
    assert!(matches!(
        validate_dimensions_within(65_536, 65_536, 100_000),
        Err(QrScoreError::DimensionOverflow { .. })
    ));
    // The longer side is reported before the pixel count.
    assert!(matches!(
        validate_dimensions_within(200_000, 200_000, 100_000),
        Err(QrScoreError::DimensionsTooLarge { max_dimension: 100_000, .. })
    ));
}
