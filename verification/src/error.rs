//! The failures a scoring run can end in, and what they say.

use vstd::prelude::*;
use vstd::string::StringExecFns;

verus! {

/// Why an image could not be scored.
#[derive(Debug)]
pub enum QrScoreError {
    /// The input bytes are not a raster image; the text is the image reader's complaint.
    ImageLoad(String),
    /// No decoding strategy found a QR code.
    DecodeFailed,
    /// The vector document is malformed; the text is the parser's complaint.
    InvalidSvg(String),
    /// Rasterizing the vector document produced no output.
    RenderFailed,
    /// A side of the raster is longer than the largest accepted side.
    DimensionsTooLarge { width: u32, height: u32, max_dimension: u32 },
    /// The pixel count does not fit in 32 bits.
    DimensionOverflow { width: u32, height: u32 },
}

/// The character of the digit `d`.
pub open spec fn digit(d: nat) -> char {
    if d == 0 {
        '0'
    } else if d == 1 {
        '1'
    } else if d == 2 {
        '2'
    } else if d == 3 {
        '3'
    } else if d == 4 {
        '4'
    } else if d == 5 {
        '5'
    } else if d == 6 {
        '6'
    } else if d == 7 {
        '7'
    } else if d == 8 {
        '8'
    } else {
        '9'
    }
}

/// The number `n` in decimal digits, without leading zeros.
pub open spec fn decimal(n: nat) -> Seq<char>
    decreases n,
{
    if n < 10 {
        seq![digit(n)]
    } else {
        decimal(n / 10).push(digit(n % 10))
    }
}

/// The digit `d` as text.
fn digit_text(d: u32) -> (text: &'static str)
    requires
        d < 10,
    ensures
        text@ == seq![digit(d as nat)],
{
    proof {
        reveal_strlit("0");
        reveal_strlit("1");
        reveal_strlit("2");
        reveal_strlit("3");
        reveal_strlit("4");
        reveal_strlit("5");
        reveal_strlit("6");
        reveal_strlit("7");
        reveal_strlit("8");
        reveal_strlit("9");
    }
    let text = match d {
        0 => "0",
        1 => "1",
        2 => "2",
        3 => "3",
        4 => "4",
        5 => "5",
        6 => "6",
        7 => "7",
        8 => "8",
        _ => "9",
    };
    assert(text@ =~= seq![digit(d as nat)]);
    text
}

/// The number `n` in decimal digits.
pub fn decimal_text(n: u32) -> (text: String)
    ensures
        text@ == decimal(n as nat),
    decreases n,
{
    if n < 10 {
        digit_text(n).to_owned()
    } else {
        let mut text = decimal_text(n / 10);
        let last = digit_text(n % 10);
        text.append(last);
        assert(text@ =~= decimal(n as nat));
        text
    }
}

impl QrScoreError {
    /// What the failure says.
    pub open spec fn message(self) -> Seq<char> {
        match self {
            QrScoreError::ImageLoad(detail) => "Failed to load image: "@ + detail@,
            QrScoreError::DecodeFailed => "No QR code found in image"@,
            QrScoreError::InvalidSvg(detail) => "Invalid SVG: "@ + detail@,
            QrScoreError::RenderFailed => "Failed to render SVG to PNG"@,
            QrScoreError::DimensionsTooLarge { width, height, max_dimension } => {
                "Image too large: "@ + decimal(width as nat) + "x"@ + decimal(height as nat)
                    + " exceeds maximum "@ + decimal(max_dimension as nat) + "x"@ + decimal(
                    max_dimension as nat,
                )
            },
            QrScoreError::DimensionOverflow { width, height } => {
                "Dimension overflow: "@ + decimal(width as nat) + " x "@ + decimal(height as nat)
                    + " overflows"@
            },
        }
    }

    /// What the failure says, as text.
    pub fn to_string(&self) -> (text: String)
        ensures
            text@ == self.message(),
    {
        match self {
            QrScoreError::ImageLoad(detail) => {
                let mut text = "Failed to load image: ".to_owned();
                text.append(detail.as_str());
                text
            },
            QrScoreError::DecodeFailed => "No QR code found in image".to_owned(),
            QrScoreError::InvalidSvg(detail) => {
                let mut text = "Invalid SVG: ".to_owned();
                text.append(detail.as_str());
                text
            },
            QrScoreError::RenderFailed => "Failed to render SVG to PNG".to_owned(),
            QrScoreError::DimensionsTooLarge { width, height, max_dimension } => {
                let limit = decimal_text(*max_dimension);
                let mut text = "Image too large: ".to_owned();
                text.append(decimal_text(*width).as_str());
                text.append("x");
                text.append(decimal_text(*height).as_str());
                text.append(" exceeds maximum ");
                text.append(limit.as_str());
                text.append("x");
                text.append(limit.as_str());
                text
            },
            QrScoreError::DimensionOverflow { width, height } => {
                let mut text = "Dimension overflow: ".to_owned();
                text.append(decimal_text(*width).as_str());
                text.append(" x ");
                text.append(decimal_text(*height).as_str());
                text.append(" overflows");
                text
            },
        }
    }
}

} // verus!
