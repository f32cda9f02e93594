use vstd::prelude::*;
use crate::reading::{Reading, SIGN_BIT, is_zero, less_than};

verus! {

/// Fewest historical points on which drift is ever reported.
pub const MIN_HISTORY: usize = 5;

/// Bit pattern of 2.5, the threshold that callers use unless they choose one.
pub const DEFAULT_THRESHOLD_BITS: u32 = 0x4020_0000;

/// The outcome of comparing a new observation with its history.
#[derive(Clone, Copy, Debug, PartialEq, Eq, Structural)]
pub enum DriftVerdict {
    /// Fewer than [`MIN_HISTORY`] points: no statistics are computed.
    InsufficientHistory,
    /// The history has standard deviation zero.
    NoVariation,
    /// The absolute z-score exceeds the threshold.
    Detected,
    /// The absolute z-score does not exceed the threshold.
    WithinRange,
}

/// `|z| > threshold` as IEEE-754 compares (false when either is NaN).
pub open spec fn exceeds(z: u32, threshold: u32) -> bool {
    less_than(threshold, (z % SIGN_BIT) as u32)
}

/// The verdict for a history of `history_len` points whose population standard
/// deviation is `std_dev`, a current value at `z_score` deviations from the
/// mean, and `threshold`. `std_dev` is read only with enough history, and
/// `z_score` only when `std_dev` is nonzero.
pub open spec fn verdict_of(history_len: nat, std_dev: u32, z_score: u32, threshold: u32) -> DriftVerdict {
    if history_len < MIN_HISTORY {
        DriftVerdict::InsufficientHistory
    } else if is_zero(std_dev) {
        DriftVerdict::NoVariation
    } else if exceeds(z_score, threshold) {
        DriftVerdict::Detected
    } else {
        DriftVerdict::WithinRange
    }
}

impl DriftVerdict {
    /// Drift is reported.
    pub fn detected(&self) -> (r: bool)
        ensures
            r == (*self == DriftVerdict::Detected),
    {
        match self {
            DriftVerdict::Detected => true,
            _ => false,
        }
    }

    /// Mean and z-score are reported as zero for these verdicts.
    pub fn reports_zero_z(&self) -> (r: bool)
        ensures
            r == (*self == DriftVerdict::InsufficientHistory || *self == DriftVerdict::NoVariation),
    {
        match self {
            DriftVerdict::InsufficientHistory => true,
            DriftVerdict::NoVariation => true,
            _ => false,
        }
    }

    /// The fixed explanation of a verdict that carries no statistics; `None`
    /// for the two verdicts whose explanation quotes the z-score.
    pub fn fixed_explanation(&self) -> (r: Option<String>)
        ensures
            *self == DriftVerdict::InsufficientHistory ==> (r matches Some(s) && s@
                == "Insufficient history for drift detection"@),
            *self == DriftVerdict::NoVariation ==> (r matches Some(s) && s@
                == "No variation in historical data"@),
            (*self == DriftVerdict::Detected || *self == DriftVerdict::WithinRange) ==> r is None,
    {
        match self {
            DriftVerdict::InsufficientHistory => Some(
                String::from_str("Insufficient history for drift detection"),
            ),
            DriftVerdict::NoVariation => Some(String::from_str("No variation in historical data")),
            _ => None,
        }
    }
}

/// There is enough history to compute statistics on.
pub fn has_enough_history(history_len: usize) -> (r: bool)
    ensures
        r == (history_len >= MIN_HISTORY),
{
    history_len >= MIN_HISTORY
}

/// A z-score may be computed: the standard deviation is not zero.
pub fn can_divide_by(std_dev: Reading) -> (r: bool)
    ensures
        r == !is_zero(std_dev.bits),
{
    !std_dev.is_zero()
}

/// Decides drift from the history's size, its standard deviation, the current
/// value's z-score and the threshold.
pub fn drift_verdict(history_len: usize, std_dev: Reading, z_score: Reading, threshold: Reading) -> (r:
    DriftVerdict)
    ensures
        r == verdict_of(history_len as nat, std_dev.bits, z_score.bits, threshold.bits),
{
    if !has_enough_history(history_len) {
        DriftVerdict::InsufficientHistory
    } else if !can_divide_by(std_dev) {
        DriftVerdict::NoVariation
    } else if z_score.abs().gt(&threshold) {
        DriftVerdict::Detected
    } else {
        DriftVerdict::WithinRange
    }
}

/// With fewer than [`MIN_HISTORY`] points no drift is ever reported,
/// whatever the current value and the threshold.
pub proof fn short_history_never_drifts(history_len: nat, std_dev: u32, z_score: u32, threshold: u32)
    requires
        history_len < MIN_HISTORY,
    ensures
        verdict_of(history_len, std_dev, z_score, threshold) == DriftVerdict::InsufficientHistory,
{
}

/// The verdict has no hidden state: it depends on the history's size and the
/// bit patterns of the statistics and the threshold alone, so deciding twice on
/// the same inputs gives one answer.
pub proof fn verdict_repeatable(
    a_len: nat,
    b_len: nat,
    std_dev: Reading,
    z_score: Reading,
    threshold: Reading,
    std_dev2: Reading,
    z_score2: Reading,
    threshold2: Reading,
)
    requires
        a_len == b_len,
        std_dev.bits == std_dev2.bits,
        z_score.bits == z_score2.bits,
        threshold.bits == threshold2.bits,
    ensures
        verdict_of(a_len, std_dev.bits, z_score.bits, threshold.bits) == verdict_of(
            b_len,
            std_dev2.bits,
            z_score2.bits,
            threshold2.bits,
        ),
{
}

} // verus!
