//! What a caller is shown of a scoring run: the score with its grade, or the
//! failure.

use crate::error::QrScoreError;
use crate::names::NameMap;
use crate::scorer::{grade_from_score, grade_of};
use crate::types::{StressResults, ValidationResult};
use vstd::prelude::*;

verus! {

/// What is shown of an image that was scored.
#[derive(Debug, Clone)]
pub struct Report {
    /// The scannability score, from 0 to 100.
    pub score: u8,
    /// The letter grade of the score.
    pub grade: String,
    /// Whether the untouched image was decoded.
    pub decodable: bool,
    /// The payload of the untouched image.
    pub content: Option<String>,
    /// Whether each variant was decoded, by the variant's name.
    pub results: NameMap<bool>,
    /// The contrast measurement in whole percent.
    pub contrast_ratio: u8,
    /// The letter of the symbol's error-correction level.
    pub error_correction: Option<String>,
}

/// What is shown of an image that could not be scored: no score, the lowest
/// grade, and what went wrong.
#[derive(Debug, Clone)]
pub struct FailureReport {
    pub score: u8,
    pub grade: String,
    pub decodable: bool,
    pub error: String,
}

/// Whether `report` shows `result`: its score with the grade of that score,
/// its payload, the outcomes of its stress run with the contrast in percent,
/// and the letter of its error-correction level.
pub open spec fn shows(report: Report, result: ValidationResult) -> bool {
    &&& report.score == result.score
    &&& report.grade@ == grade_of(result.score)
    &&& report.decodable == result.decodable
    &&& report.content == result.content
    &&& report.results == result.stress_results.tests
    &&& report.contrast_ratio == StressResults::percent_of(result.stress_results.contrast_permille)
    &&& match result.metadata {
        Some(metadata) => report.error_correction matches Some(letter) && letter@
            == metadata.error_correction.label(),
        None => report.error_correction is None,
    }
}

/// Shows the result of a scoring run.
pub fn report(result: ValidationResult) -> (shown: Report)
    ensures
        shows(shown, result),
{
    let contrast_ratio = result.stress_results.contrast_percent();
    let error_correction = match result.metadata {
        Some(metadata) => Some(metadata.error_correction.to_string()),
        None => None,
    };
    Report {
        score: result.score,
        grade: grade_from_score(result.score).to_owned(),
        decodable: result.decodable,
        content: result.content,
        results: result.stress_results.tests,
        contrast_ratio,
        error_correction,
    }
}

/// Whether `shown` shows a failure that says `error`: a score of 0, the
/// grade F, nothing decoded, and the text.
pub open spec fn shows_failure(shown: FailureReport, error: Seq<char>) -> bool {
    &&& shown.score == 0
    &&& shown.grade@ == "F"@
    &&& !shown.decodable
    &&& shown.error@ == error
}

/// Shows a failure that is described by `error`: a score of 0 and the grade
/// F. Nothing of a result is shown with it.
pub fn failure_report_of(error: String) -> (shown: FailureReport)
    ensures
        shows_failure(shown, error@),
{
    FailureReport { score: 0, grade: grade_from_score(0).to_owned(), decodable: false, error }
}

/// Shows a failure of a scoring run, with what the failure says.
pub fn failure_report(error: &QrScoreError) -> (shown: FailureReport)
    ensures
        shows_failure(shown, error.message()),
{
    failure_report_of(error.to_string())
}

} // verus!
