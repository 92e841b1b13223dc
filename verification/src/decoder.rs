//! The decode ensemble: independent decoding strategies, tried in a fixed
//! order until one reads a QR code.
//!
//! The strategies are two binarizations under the `rxing` reader and the
//! `rqrr` reader on the luminance samples and on their inversion. What a
//! reader finds in a raster is its own affair; what the ensemble makes of the
//! outcomes is stated here for every outcome.
//!
//! The readers are outside code that may fault on a raster, and a fault in
//! one of them must count as the failure of that one attempt. Nothing in this
//! library can contain a fault, so the library calls no reader. For every
//! attempt it says which reader is to be called, how, and on which samples;
//! the caller makes the call, contains what may go wrong in it, and hands
//! back what the reader answered, of which the library makes the outcome.

use crate::error::QrScoreError;
use crate::raster::{luma8, luma_raster};
use crate::types::{DecodeResult, Decoded, ErrorCorrectionLevel, QrMetadata};
use image::DynamicImage;
use vstd::prelude::*;
use vstd::string::StrSliceExecFns;

verus! {

/// What one strategy read: the payload, and the error-correction level where
/// the reader told one that is known.
#[derive(Debug, Clone)]
pub struct RawDecode {
    pub content: String,
    pub error_correction: Option<ErrorCorrectionLevel>,
}

/// A [`RawDecode`] with its text as characters.
pub struct Reading {
    pub content: Seq<char>,
    pub error_correction: Option<ErrorCorrectionLevel>,
}

impl View for RawDecode {
    type V = Reading;

    open spec fn view(&self) -> Reading {
        Reading { content: self.content@, error_correction: self.error_correction }
    }
}

/// The result that a reading stands for: its payload, and its level or, where
/// it has none, the level M.
pub open spec fn result_of(reading: Reading) -> Decoded {
    Decoded {
        content: reading.content,
        metadata: Some(
            QrMetadata {
                error_correction: match reading.error_correction {
                    Some(level) => level,
                    None => ErrorCorrectionLevel::M,
                },
            },
        ),
    }
}

impl RawDecode {
    /// The result that the reading stands for.
    pub fn into_result(self) -> (result: DecodeResult)
        ensures
            result@ == result_of(self@),
    {
        let error_correction = match self.error_correction {
            Some(level) => level,
            None => ErrorCorrectionLevel::M,
        };
        DecodeResult { content: self.content, metadata: Some(QrMetadata { error_correction }) }
    }
}

/// The level that a text names: one of the four letters, and nothing else.
pub open spec fn level_of_text(text: Seq<char>) -> Option<ErrorCorrectionLevel> {
    if text == seq!['L'] {
        Some(ErrorCorrectionLevel::L)
    } else if text == seq!['M'] {
        Some(ErrorCorrectionLevel::M)
    } else if text == seq!['Q'] {
        Some(ErrorCorrectionLevel::Q)
    } else if text == seq!['H'] {
        Some(ErrorCorrectionLevel::H)
    } else {
        None
    }
}

/// Reads an error-correction level from the letter that stands for it.
pub fn parse_ec_level(s: &str) -> (level: Option<ErrorCorrectionLevel>)
    ensures
        level == level_of_text(s@),
{
    if s.unicode_len() != 1 {
        return None;
    }
    let letter = s.get_char(0);
    assert(s@ =~= seq![letter]);
    assert(seq![letter][0] == letter);
    if letter == 'L' {
        Some(ErrorCorrectionLevel::L)
    } else if letter == 'M' {
        Some(ErrorCorrectionLevel::M)
    } else if letter == 'Q' {
        Some(ErrorCorrectionLevel::Q)
    } else if letter == 'H' {
        Some(ErrorCorrectionLevel::H)
    } else {
        assert(seq!['L'][0] == 'L' && seq!['M'][0] == 'M' && seq!['Q'][0] == 'Q' && seq!['H'][0]
            == 'H');
        None
    }
}

/// The level that the two format bits of a QR symbol stand for. A value that
/// is no pair of bits stands for M.
pub open spec fn level_of_format_bits(bits: u16) -> ErrorCorrectionLevel {
    if bits == 1 {
        ErrorCorrectionLevel::L
    } else if bits == 2 {
        ErrorCorrectionLevel::H
    } else if bits == 3 {
        ErrorCorrectionLevel::Q
    } else {
        ErrorCorrectionLevel::M
    }
}

/// Reads an error-correction level from the format bits of a symbol, as
/// `rqrr` reports them.
pub fn convert_rqrr_ec(level: u16) -> (converted: ErrorCorrectionLevel)
    ensures
        converted == level_of_format_bits(level),
{
    match level {
        0 => ErrorCorrectionLevel::M,
        1 => ErrorCorrectionLevel::L,
        2 => ErrorCorrectionLevel::H,
        3 => ErrorCorrectionLevel::Q,
        _ => ErrorCorrectionLevel::M,
    }
}

/// The reading that a payload and the level text of the `rxing` reader stand
/// for. A text that names no level counts as none.
pub open spec fn reading_of_scan(text: Seq<char>, level: Option<Seq<char>>) -> Reading {
    Reading {
        content: text,
        error_correction: match level {
            Some(letter) => level_of_text(letter),
            None => None,
        },
    }
}

/// The reading that a payload and the level text of the `rxing` reader stand
/// for.
pub fn reading_from_scan(text: String, level: Option<String>) -> (raw: RawDecode)
    ensures
        raw@ == reading_of_scan(
            text@,
            match level {
                Some(letter) => Some(letter@),
                None => None,
            },
        ),
{
    let error_correction = match &level {
        Some(letter) => parse_ec_level(letter.as_str()),
        None => None,
    };
    RawDecode { content: text, error_correction }
}

/// The reading that a payload and the format bits of the `rqrr` reader stand
/// for.
pub fn reading_from_grid(text: String, format_bits: u16) -> (raw: RawDecode)
    ensures
        raw@ == (Reading {
            content: text@,
            error_correction: Some(level_of_format_bits(format_bits)),
        }),
{
    RawDecode { content: text, error_correction: Some(convert_rqrr_ec(format_bits)) }
}

/// How the `rxing` reader turns luminance into black and white.
#[derive(Debug, Clone, Copy, PartialEq, Eq, Structural)]
pub enum Binarization {
    /// A threshold that adapts to each neighbourhood.
    Adaptive,
    /// One threshold from the histogram of the whole image.
    GlobalHistogram,
}

/// One decoding strategy of the ensemble.
#[derive(Debug, Clone, Copy, PartialEq, Eq, Structural)]
pub enum Strategy {
    /// `rxing` under the adaptive threshold.
    RxingAdaptive,
    /// `rxing` under the global histogram threshold.
    RxingGlobalHistogram,
    /// `rqrr` on the luminance samples.
    Rqrr,
    /// `rqrr` on the inverted luminance samples.
    RqrrInverted,
}

/// The number of strategies.
pub const STRATEGY_COUNT: usize = 4;

/// The strategies in the order in which they are tried.
pub open spec fn strategy_order() -> Seq<Strategy> {
    seq![
        Strategy::RxingAdaptive,
        Strategy::RxingGlobalHistogram,
        Strategy::Rqrr,
        Strategy::RqrrInverted,
    ]
}

/// The strategy that is tried at `index` of the order.
pub fn strategy_at(index: usize) -> (strategy: Strategy)
    requires
        index < STRATEGY_COUNT,
    ensures
        strategy == strategy_order()[index as int],
{
    match index {
        0 => Strategy::RxingAdaptive,
        1 => Strategy::RxingGlobalHistogram,
        2 => Strategy::Rqrr,
        _ => Strategy::RqrrInverted,
    }
}

/// A kind of symbol that a reader looks for.
#[derive(Debug, Clone, Copy, PartialEq, Eq, Structural)]
pub enum Symbology {
    /// QR codes.
    QrCode,
}

/// How the `rxing` reader is asked to look for symbols.
#[derive(Debug, Clone, Copy, PartialEq, Eq, Structural)]
pub struct ScanHints {
    /// Whether the reader tries the inverted polarity where it finds nothing.
    pub also_inverted: bool,
    /// Whether the reader spends more time to find a code.
    pub try_harder: bool,
    /// The one kind of symbol that the reader looks for.
    pub symbology: Symbology,
}

/// The hints of the ensemble: the reader tries harder, tries the inverted
/// polarity as well, and looks for QR codes alone.
pub open spec fn ensemble_hints() -> ScanHints {
    ScanHints { also_inverted: true, try_harder: true, symbology: Symbology::QrCode }
}

/// The hints of the ensemble.
pub fn rxing_hints() -> (hints: ScanHints)
    ensures
        hints == ensemble_hints(),
{
    ScanHints { also_inverted: true, try_harder: true, symbology: Symbology::QrCode }
}

/// A call of a reader that the ensemble asks of its caller, on luminance
/// samples with their width and height.
#[derive(Debug, Clone, Copy, PartialEq, Eq, Structural)]
pub enum ReaderCall {
    /// The `rxing` reader under a binarization and hints.
    Rxing { binarization: Binarization, hints: ScanHints },
    /// The `rqrr` reader: of the grids that it detects, the grid at `grid`
    /// is read.
    Rqrr { grid: usize },
}

/// What a reader answered to a call.
#[derive(Debug, Clone)]
pub enum ReaderReply {
    /// The `rxing` reader found a payload, and the text of the
    /// error-correction level where it told one.
    Scanned { text: String, level: Option<String> },
    /// The `rqrr` reader read a payload, and the format bits of the
    /// error-correction level.
    Grid { text: String, format_bits: u16 },
    /// Nothing was read, or the reader faulted.
    Nothing,
}

/// A [`ReaderReply`] with its texts as characters.
pub enum Reply {
    Scanned { text: Seq<char>, level: Option<Seq<char>> },
    Grid { text: Seq<char>, format_bits: u16 },
    Nothing,
}

impl View for ReaderReply {
    type V = Reply;

    open spec fn view(&self) -> Reply {
        match *self {
            ReaderReply::Scanned { text, level } => Reply::Scanned {
                text: text@,
                level: match level {
                    Some(letter) => Some(letter@),
                    None => None,
                },
            },
            ReaderReply::Grid { text, format_bits } => Reply::Grid { text: text@, format_bits },
            ReaderReply::Nothing => Reply::Nothing,
        }
    }
}

/// The reading that an answer to a call of the `rxing` reader stands for:
/// the payload with the level that the level text names. Any other answer
/// stands for nothing read.
pub open spec fn scan_reading(reply: Reply) -> Option<Reading> {
    match reply {
        Reply::Scanned { text, level } => Some(reading_of_scan(text, level)),
        _ => None,
    }
}

/// The reading that an answer to a call of the `rqrr` reader stands for: the
/// payload with the level that the format bits stand for. Any other answer
/// stands for nothing read.
pub open spec fn grid_reading(reply: Reply) -> Option<Reading> {
    match reply {
        Reply::Grid { text, format_bits } => Some(
            Reading { content: text, error_correction: Some(level_of_format_bits(format_bits)) },
        ),
        _ => None,
    }
}

/// The reading that the answer to a call stands for.
pub open spec fn reading_of_reply(call: ReaderCall, reply: Reply) -> Option<Reading> {
    match call {
        ReaderCall::Rxing { .. } => scan_reading(reply),
        ReaderCall::Rqrr { .. } => grid_reading(reply),
    }
}

/// Whether `outcome` is the outcome of an attempt that read `reading`: the
/// reading, or the failure where nothing was read.
pub open spec fn is_outcome(
    reading: Option<Reading>,
    outcome: Result<RawDecode, QrScoreError>,
) -> bool {
    match reading {
        Some(read) => outcome matches Ok(raw) && raw@ == read,
        None => outcome matches Err(e) && e == QrScoreError::DecodeFailed,
    }
}

/// Makes the outcome of an attempt of what the `rxing` reader answered: a
/// reading of the payload with the level that the level text names, and the
/// failure where the reader found nothing.
pub fn outcome_of_scan(reply: ReaderReply) -> (outcome: Result<RawDecode, QrScoreError>)
    ensures
        is_outcome(scan_reading(reply@), outcome),
{
    match reply {
        ReaderReply::Scanned { text, level } => Ok(reading_from_scan(text, level)),
        _ => Err(QrScoreError::DecodeFailed),
    }
}

/// Makes the outcome of an attempt of what the `rqrr` reader answered: a
/// reading of the payload with the level that the format bits stand for, and
/// the failure where the reader read nothing.
pub fn outcome_of_grid(reply: ReaderReply) -> (outcome: Result<RawDecode, QrScoreError>)
    ensures
        is_outcome(grid_reading(reply@), outcome),
{
    match reply {
        ReaderReply::Grid { text, format_bits } => Ok(reading_from_grid(text, format_bits)),
        _ => Err(QrScoreError::DecodeFailed),
    }
}

/// The call of the `rxing` reader under one binarization: under the hints of
/// the ensemble.
pub open spec fn rxing_call(binarization: Binarization) -> ReaderCall {
    ReaderCall::Rxing { binarization, hints: ensemble_hints() }
}

/// The call of the `rqrr` reader: of the grids that the reader detects, the
/// first is read.
pub open spec fn rqrr_call() -> ReaderCall {
    ReaderCall::Rqrr { grid: 0 }
}

/// Whether `outcome` is what an attempt by `call` on these samples owes:
/// the outcome that is made of what `read` answered to that call on them.
pub open spec fn is_call_outcome<R: Fn(ReaderCall, &Vec<u8>, u32, u32) -> ReaderReply>(
    read: R,
    call: ReaderCall,
    luma: &Vec<u8>,
    width: u32,
    height: u32,
    outcome: Result<RawDecode, QrScoreError>,
) -> bool {
    exists|reply: ReaderReply|
        {
            &&& #[trigger] call_ensures(read, (call, luma, width, height), reply)
            &&& is_outcome(reading_of_reply(call, reply@), outcome)
        }
}

/// Tries the `rxing` reader on luminance samples under one binarization.
///
/// `read` is asked for the reader under that binarization and the hints of
/// the ensemble, on the samples as they came; of what it answers the outcome
/// is made by [`outcome_of_scan`].
pub fn decode_rxing_with<R: Fn(ReaderCall, &Vec<u8>, u32, u32) -> ReaderReply>(
    luma: &Vec<u8>,
    width: u32,
    height: u32,
    binarization: Binarization,
    read: &R,
) -> (res: Result<RawDecode, QrScoreError>)
    requires
        call_requires(*read, (rxing_call(binarization), luma, width, height)),
    ensures
        is_call_outcome(*read, rxing_call(binarization), luma, width, height, res),
{
    let call = ReaderCall::Rxing { binarization, hints: rxing_hints() };
    let reply = read(call, luma, width, height);
    let ghost answered = reply;
    let res = outcome_of_scan(reply);
    assert(call_ensures(*read, (rxing_call(binarization), luma, width, height), answered));
    res
}

/// Tries the `rqrr` reader on luminance samples. Of the grids that the
/// reader detects, the first is read.
///
/// `read` is asked for the reader on the samples as they came; of what it
/// answers the outcome is made by [`outcome_of_grid`].
pub fn decode_rqrr<R: Fn(ReaderCall, &Vec<u8>, u32, u32) -> ReaderReply>(
    luma: &Vec<u8>,
    width: u32,
    height: u32,
    read: &R,
) -> (res: Result<RawDecode, QrScoreError>)
    requires
        call_requires(*read, (rqrr_call(), luma, width, height)),
    ensures
        is_call_outcome(*read, rqrr_call(), luma, width, height, res),
{
    let call = ReaderCall::Rqrr { grid: 0 };
    let reply = read(call, luma, width, height);
    let ghost answered = reply;
    let res = outcome_of_grid(reply);
    assert(call_ensures(*read, (rqrr_call(), luma, width, height), answered));
    res
}

/// Luminance samples with dark and light exchanged.
pub open spec fn inverted(luma: Seq<u8>) -> Seq<u8> {
    Seq::new(luma.len(), |i: int| (255 - luma[i]) as u8)
}

/// Exchanges dark and light in luminance samples.
pub fn invert_luma(luma: &Vec<u8>) -> (flipped: Vec<u8>)
    ensures
        flipped@ == inverted(luma@),
{
    let mut flipped: Vec<u8> = Vec::new();
    let mut i: usize = 0;
    while i < luma.len()
        invariant
            i <= luma.len(),
            flipped.len() == i,
            forall|k: int| 0 <= k < i ==> flipped[k] == (255 - luma[k]) as u8,
        decreases luma.len() - i,
    {
        flipped.push(255 - luma[i]);
        i += 1;
    }
    assert(flipped@ =~= inverted(luma@));
    flipped
}

/// What was read, with the payload as characters.
pub open spec fn reading_view(found: Option<RawDecode>) -> Option<Reading> {
    match found {
        Some(raw) => Some(raw@),
        None => None,
    }
}

/// The call that a strategy makes.
pub open spec fn call_of(strategy: Strategy) -> ReaderCall {
    match strategy {
        Strategy::RxingAdaptive => rxing_call(Binarization::Adaptive),
        Strategy::RxingGlobalHistogram => rxing_call(Binarization::GlobalHistogram),
        Strategy::Rqrr => rqrr_call(),
        Strategy::RqrrInverted => rqrr_call(),
    }
}

/// The samples that a strategy hands to its reader: the luminance samples,
/// and their inversion for the inverted strategy.
pub open spec fn samples_of(strategy: Strategy, luma: Seq<u8>) -> Seq<u8> {
    match strategy {
        Strategy::RqrrInverted => inverted(luma),
        _ => luma,
    }
}

/// Whether `found` is what the attempt of a strategy on luminance samples
/// reads when `read` makes the reader's call: the reading that stands for
/// what `read` answered to the call of the strategy on the samples of the
/// strategy, with the width and the height as they came.
pub open spec fn is_attempt<R: Fn(ReaderCall, &Vec<u8>, u32, u32) -> ReaderReply>(
    read: R,
    strategy: Strategy,
    luma: Seq<u8>,
    width: u32,
    height: u32,
    found: Option<Reading>,
) -> bool {
    exists|samples: Vec<u8>, reply: ReaderReply|
        {
            &&& samples@ == samples_of(strategy, luma)
            &&& #[trigger] call_ensures(read, (call_of(strategy), &samples, width, height), reply)
            &&& found == reading_of_reply(call_of(strategy), reply@)
        }
}

/// Tries one strategy on luminance samples: the `rxing` reader under one of
/// its binarizations, or the `rqrr` reader on the samples or on their
/// inversion. `read` makes the reader's call.
pub fn attempt<R: Fn(ReaderCall, &Vec<u8>, u32, u32) -> ReaderReply>(
    strategy: Strategy,
    luma: &Vec<u8>,
    width: u32,
    height: u32,
    read: &R,
) -> (found: Option<RawDecode>)
    requires
        forall|call: ReaderCall, samples: &Vec<u8>|
            call_requires(*read, (call, samples, width, height)),
    ensures
        is_attempt(*read, strategy, luma@, width, height, reading_view(found)),
{
    let outcome = match strategy {
        Strategy::RxingAdaptive => {
            let outcome = decode_rxing_with(luma, width, height, Binarization::Adaptive, read);
            proof {
                lemma_call_outcome_is_attempt(*read, strategy, luma, luma@, width, height, outcome);
            }
            outcome
        },
        Strategy::RxingGlobalHistogram => {
            let outcome = decode_rxing_with(
                luma,
                width,
                height,
                Binarization::GlobalHistogram,
                read,
            );
            proof {
                lemma_call_outcome_is_attempt(*read, strategy, luma, luma@, width, height, outcome);
            }
            outcome
        },
        Strategy::Rqrr => {
            let outcome = decode_rqrr(luma, width, height, read);
            proof {
                lemma_call_outcome_is_attempt(*read, strategy, luma, luma@, width, height, outcome);
            }
            outcome
        },
        Strategy::RqrrInverted => {
            let flipped = invert_luma(luma);
            let outcome = decode_rqrr(&flipped, width, height, read);
            proof {
                lemma_call_outcome_is_attempt(
                    *read,
                    strategy,
                    &flipped,
                    luma@,
                    width,
                    height,
                    outcome,
                );
            }
            outcome
        },
    };
    match outcome {
        Ok(raw) => Some(raw),
        Err(_) => None,
    }
}

/// The outcome of the call of a strategy on the samples of the strategy is
/// what the attempt of the strategy reads.
proof fn lemma_call_outcome_is_attempt<R: Fn(ReaderCall, &Vec<u8>, u32, u32) -> ReaderReply>(
    read: R,
    strategy: Strategy,
    samples: &Vec<u8>,
    luma: Seq<u8>,
    width: u32,
    height: u32,
    outcome: Result<RawDecode, QrScoreError>,
)
    requires
        samples@ == samples_of(strategy, luma),
        is_call_outcome(read, call_of(strategy), samples, width, height, outcome),
    ensures
        is_attempt(
            read,
            strategy,
            luma,
            width,
            height,
            match outcome {
                Ok(raw) => Some(raw@),
                Err(_) => None,
            },
        ),
{
    let call = call_of(strategy);
    let reply = choose|reply: ReaderReply|
        {
            &&& #[trigger] call_ensures(read, (call, samples, width, height), reply)
            &&& is_outcome(reading_of_reply(call, reply@), outcome)
        };
    assert(call_ensures(read, (call_of(strategy), samples, width, height), reply));
}

/// Whether `result` is what the ensemble owes on a raster of luminance
/// samples when `read` makes the readers' calls: the result of the reading
/// of the first strategy that read anything, every strategy before it having
/// read nothing; or the failure, every strategy having read nothing.
pub open spec fn is_first_success<R: Fn(ReaderCall, &Vec<u8>, u32, u32) -> ReaderReply>(
    read: R,
    luma: Seq<u8>,
    width: u32,
    height: u32,
    result: Result<DecodeResult, QrScoreError>,
) -> bool {
    match result {
        Ok(found) => exists|k: int, reading: Reading|
            {
                &&& 0 <= k < STRATEGY_COUNT
                &&& #[trigger] is_attempt(
                    read,
                    strategy_order()[k],
                    luma,
                    width,
                    height,
                    Some(reading),
                )
                &&& found@ == result_of(reading)
                &&& forall|j: int|
                    0 <= j < k ==> #[trigger] is_attempt(
                        read,
                        strategy_order()[j],
                        luma,
                        width,
                        height,
                        None::<Reading>,
                    )
            },
        Err(e) => e == QrScoreError::DecodeFailed && forall|j: int|
            0 <= j < STRATEGY_COUNT ==> #[trigger] is_attempt(
                read,
                strategy_order()[j],
                luma,
                width,
                height,
                None::<Reading>,
            ),
    }
}

/// Runs the ensemble on a raster of luminance samples: tries the strategies
/// in their order and returns the result of the first that reads anything.
/// `read` makes the readers' calls.
///
/// The ensemble fails only where every strategy has read nothing, and says
/// no more of the failure than that. A fault in one reader must not end the
/// ensemble: `read` contains it and answers that nothing was read.
pub fn first_success<R: Fn(ReaderCall, &Vec<u8>, u32, u32) -> ReaderReply>(
    read: R,
    luma: &Vec<u8>,
    width: u32,
    height: u32,
) -> (result: Result<DecodeResult, QrScoreError>)
    requires
        forall|call: ReaderCall, samples: &Vec<u8>|
            call_requires(read, (call, samples, width, height)),
    ensures
        is_first_success(read, luma@, width, height, result),
{
    let mut index: usize = 0;
    while index < STRATEGY_COUNT
        invariant
            index <= STRATEGY_COUNT,
            forall|call: ReaderCall, samples: &Vec<u8>|
                call_requires(read, (call, samples, width, height)),
            forall|j: int|
                0 <= j < index ==> #[trigger] is_attempt(
                    read,
                    strategy_order()[j],
                    luma@,
                    width,
                    height,
                    None::<Reading>,
                ),
        decreases STRATEGY_COUNT - index,
    {
        let strategy = strategy_at(index);
        match attempt(strategy, luma, width, height, &read) {
            Some(raw) => {
                let ghost reading = raw@;
                let found = raw.into_result();
                assert(is_attempt(
                    read,
                    strategy_order()[index as int],
                    luma@,
                    width,
                    height,
                    Some(reading),
                ));
                return Ok(found);
            },
            None => {
                assert(is_attempt(
                    read,
                    strategy_order()[index as int],
                    luma@,
                    width,
                    height,
                    None::<Reading>,
                ));
            },
        }
        index += 1;
    }
    Err(QrScoreError::DecodeFailed)
}

/// The ensemble returns the payload whichever strategy reads it: where some
/// strategy cannot but read something and every reading of a strategy
/// carries the payload `content`, the ensemble succeeds with that payload.
pub proof fn lemma_payload_whichever_strategy<
    R: Fn(ReaderCall, &Vec<u8>, u32, u32) -> ReaderReply,
>(
    read: R,
    luma: Seq<u8>,
    width: u32,
    height: u32,
    result: Result<DecodeResult, QrScoreError>,
    content: Seq<char>,
    reader: int,
)
    requires
        is_first_success(read, luma, width, height, result),
        0 <= reader < STRATEGY_COUNT,
        !is_attempt(read, strategy_order()[reader], luma, width, height, None::<Reading>),
        forall|k: int, reading: Reading|
            0 <= k < STRATEGY_COUNT && #[trigger] is_attempt(
                read,
                strategy_order()[k],
                luma,
                width,
                height,
                Some(reading),
            ) ==> reading.content == content,
    ensures
        result matches Ok(found) && found@.content == content,
{
}

/// Whether `result` is what the ensemble owes on the luminance samples of
/// an image when `read` makes the readers' calls.
pub open spec fn is_decoding<R: Fn(ReaderCall, &Vec<u8>, u32, u32) -> ReaderReply>(
    read: R,
    img: DynamicImage,
    result: Result<DecodeResult, QrScoreError>,
) -> bool {
    is_first_success(read, luma_raster(img).0, luma_raster(img).1, luma_raster(img).2, result)
}

/// Decodes the QR code in an image: every strategy in its order on the
/// image's luminance samples, until one reads a code. `read` makes the
/// readers' calls.
pub fn try_decode<R: Fn(ReaderCall, &Vec<u8>, u32, u32) -> ReaderReply>(
    img: &DynamicImage,
    read: R,
) -> (result: Result<DecodeResult, QrScoreError>)
    requires
        forall|call: ReaderCall, samples: &Vec<u8>, width: u32, height: u32|
            call_requires(read, (call, samples, width, height)),
    ensures
        is_decoding(read, *img, result),
        result matches Ok(found) ==> found.metadata is Some,
        result matches Err(e) ==> e == QrScoreError::DecodeFailed,
{
    let (luma, width, height) = luma8(img);
    first_success(read, &luma, width, height)
}

/// Whether `result` is what decoding the bytes of an image file may give
/// when `read` makes the readers' calls: what the ensemble owes on some
/// image, or the failure to read the bytes as an image at all.
pub open spec fn is_file_decoding<R: Fn(ReaderCall, &Vec<u8>, u32, u32) -> ReaderReply>(
    read: R,
    result: Result<DecodeResult, QrScoreError>,
) -> bool {
    match result {
        Ok(found) => found.metadata is Some && exists|img: DynamicImage| #[trigger]
            is_decoding(read, img, Ok(found)),
        Err(QrScoreError::ImageLoad(_)) => true,
        Err(e) => e == QrScoreError::DecodeFailed && exists|img: DynamicImage| #[trigger]
            is_decoding(read, img, Err::<DecodeResult, QrScoreError>(e)),
    }
}

/// Decodes the QR code in the bytes of an image file.
///
/// Bytes that are not read as an image fail with what the reader of images
/// says of them; an image is decoded by [`try_decode`].
pub fn multi_decode<R: Fn(ReaderCall, &Vec<u8>, u32, u32) -> ReaderReply>(
    image_bytes: &[u8],
    read: R,
) -> (result: Result<DecodeResult, QrScoreError>)
    requires
        forall|call: ReaderCall, samples: &Vec<u8>, width: u32, height: u32|
            call_requires(read, (call, samples, width, height)),
    ensures
        is_file_decoding(read, result),
{
    match image::load_from_memory(image_bytes) {
        Ok(img) => {
            let result = try_decode(&img, read);
            assert(is_decoding(read, img, result));
            result
        },
        Err(e) => Err(QrScoreError::ImageLoad(e.to_string())),
    }
}

} // verus!
