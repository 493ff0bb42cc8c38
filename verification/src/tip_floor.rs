//! The tip floor: which of a sample's values a caller asked for, and the tip
//! that comes of it.
//!
//! A sample comes from the gateway in fractions of the native currency unit.
//! Here it is held in lamports, the minor unit, each value rounded up so
//! that no tip is under-estimated.

use crate::error::{BundleError, ConfigurationIssue, ProtocolIssue};
use vstd::prelude::*;

verus! {

/// The number of lamports in one unit of the native currency.
pub const LAMPORTS_PER_SOL: u64 = 1000000000;

/// One sample of the tips that landed lately: five percentiles and, where the
/// gateway gives it, the moving average of the 50th; all in lamports.
#[derive(Clone, Debug, PartialEq, Eq)]
pub struct TipFloor {
    pub time: Option<String>,
    pub landed_tips_25th_percentile: u64,
    pub landed_tips_50th_percentile: u64,
    pub landed_tips_75th_percentile: u64,
    pub landed_tips_95th_percentile: u64,
    pub landed_tips_99th_percentile: u64,
    pub ema_landed_tips_50th_percentile: Option<u64>,
}

impl TipFloor {
    /// The sample's value for percentile `p`, where it has one: for 25, 50,
    /// 75, 95 and 99.
    pub open spec fn landed_percentile(self, p: u8) -> Option<u64> {
        if p == 25 {
            Some(self.landed_tips_25th_percentile)
        } else if p == 50 {
            Some(self.landed_tips_50th_percentile)
        } else if p == 75 {
            Some(self.landed_tips_75th_percentile)
        } else if p == 95 {
            Some(self.landed_tips_95th_percentile)
        } else if p == 99 {
            Some(self.landed_tips_99th_percentile)
        } else {
            None
        }
    }

    /// The value that a caller asked for: the moving average of the 50th
    /// percentile where that is wanted and the sample has it, else the
    /// percentile itself. Any other percentile than the five is a
    /// configuration error.
    pub open spec fn selected(self, percentile: u8, use_ema: bool) -> Result<u64, BundleError> {
        if use_ema && percentile == 50 && self.ema_landed_tips_50th_percentile is Some {
            Ok(self.ema_landed_tips_50th_percentile->0)
        } else {
            match self.landed_percentile(percentile) {
                Some(lamports) => Ok(lamports),
                None => Err(
                    BundleError::ConfigurationError(
                        ConfigurationIssue::UnsupportedPercentile(percentile),
                    ),
                ),
            }
        }
    }

    /// The sample's value for percentile `p`.
    pub fn get_landed_percentile(&self, p: u8) -> (r: Result<u64, BundleError>)
        ensures
            r == match self.landed_percentile(p) {
                Some(lamports) => Ok::<u64, BundleError>(lamports),
                None => Err(
                    BundleError::ConfigurationError(ConfigurationIssue::UnsupportedPercentile(p)),
                ),
            },
    {
        if p == 25 {
            Ok(self.landed_tips_25th_percentile)
        } else if p == 50 {
            Ok(self.landed_tips_50th_percentile)
        } else if p == 75 {
            Ok(self.landed_tips_75th_percentile)
        } else if p == 95 {
            Ok(self.landed_tips_95th_percentile)
        } else if p == 99 {
            Ok(self.landed_tips_99th_percentile)
        } else {
            Err(BundleError::ConfigurationError(ConfigurationIssue::UnsupportedPercentile(p)))
        }
    }
}

/// `lamports` brought into the range from `min_lamports` to `max_lamports`:
/// raised to the lower bound first, then cut to the upper.
pub open spec fn clamped(lamports: u64, min_lamports: u64, max_lamports: u64) -> u64 {
    let raised = if lamports < min_lamports {
        min_lamports
    } else {
        lamports
    };
    if raised > max_lamports {
        max_lamports
    } else {
        raised
    }
}

/// The tip that a tip-floor response stands for: the value asked for of its
/// first sample, brought into the range. A response without a sample breaks
/// the protocol, and that is found before the percentile is looked at.
pub open spec fn tip_floor_lamports(
    samples: Seq<TipFloor>,
    percentile: u8,
    use_ema: bool,
    min_lamports: u64,
    max_lamports: u64,
) -> Result<u64, BundleError> {
    if samples.len() == 0 {
        Err(BundleError::ProtocolError(ProtocolIssue::EmptyTipFloor))
    } else {
        match samples[0].selected(percentile, use_ema) {
            Ok(lamports) => Ok(clamped(lamports, min_lamports, max_lamports)),
            Err(error) => Err(error),
        }
    }
}

/// With bounds in order, a clamped tip lies within them, and a tip that lies
/// within them is left as it is.
pub proof fn lemma_clamped_in_range(lamports: u64, min_lamports: u64, max_lamports: u64)
    requires
        min_lamports <= max_lamports,
    ensures
        min_lamports <= clamped(lamports, min_lamports, max_lamports) <= max_lamports,
        min_lamports <= lamports <= max_lamports ==> clamped(lamports, min_lamports, max_lamports)
            == lamports,
{
}

/// A tip never exceeds the upper bound, in whatever order the bounds are.
pub proof fn lemma_clamped_at_most_max(lamports: u64, min_lamports: u64, max_lamports: u64)
    ensures
        clamped(lamports, min_lamports, max_lamports) <= max_lamports,
{
}

/// `lamports` brought into the range from `min_lamports` to `max_lamports`.
pub fn clamp_lamports(lamports: u64, min_lamports: u64, max_lamports: u64) -> (r: u64)
    ensures
        r == clamped(lamports, min_lamports, max_lamports),
{
    let raised: u64 = if lamports < min_lamports {
        min_lamports
    } else {
        lamports
    };
    if raised > max_lamports {
        max_lamports
    } else {
        raised
    }
}

/// The tip, in lamports, that a tip-floor response stands for.
pub fn get_tip_floor_lamports(
    samples: &Vec<TipFloor>,
    percentile: u8,
    use_ema: bool,
    min_lamports: u64,
    max_lamports: u64,
) -> (r: Result<u64, BundleError>)
    ensures
        r == tip_floor_lamports(samples@, percentile, use_ema, min_lamports, max_lamports),
{
    if samples.len() == 0 {
        return Err(BundleError::ProtocolError(ProtocolIssue::EmptyTipFloor));
    }
    let first = &samples[0];
    let selected = if use_ema && percentile == 50 {
        match first.ema_landed_tips_50th_percentile {
            Some(lamports) => Ok(lamports),
            None => Ok(first.landed_tips_50th_percentile),
        }
    } else {
        first.get_landed_percentile(percentile)
    };
    match selected {
        Ok(lamports) => Ok(clamp_lamports(lamports, min_lamports, max_lamports)),
        Err(error) => Err(error),
    }
}

} // verus!
