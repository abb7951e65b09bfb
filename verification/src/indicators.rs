//! The technical indicators: their parameters, their names, and the index
//! arithmetic that decides which bars enter each value (trailing windows,
//! look-back offsets and the warm-up of exponential averages). The price
//! arithmetic itself is floating point and is done by the caller over the
//! indices these functions give.

use vstd::prelude::*;

verus! {

/// First bar of the trailing window of `period` bars that ends at bar `i`,
/// or `None` while fewer than `period` bars have been seen.
pub open spec fn window_start_of(period: int, i: int) -> Option<int> {
    if i + 1 < period {
        None
    } else {
        Some(i + 1 - period)
    }
}

/// The trailing window of `period` bars ending at bar `i`: its first bar,
/// or `None` while the window is not yet full.
pub fn trailing_window(period: usize, i: usize) -> (r: Option<usize>)
    requires
        i < usize::MAX,
    ensures
        match r {
            None => window_start_of(period as int, i as int) is None,
            Some(s) => window_start_of(period as int, i as int) == Some(s as int),
        },
{
    if i + 1 < period {
        None
    } else {
        Some(i + 1 - period)
    }
}

/// A full trailing window holds exactly `period` bars and ends at bar `i`.
pub proof fn lemma_window_holds_period(period: int, i: int)
    requires
        period >= 1,
        i >= 0,
    ensures
        window_start_of(period, i) is Some <==> i >= period - 1,
        window_start_of(period, i) matches Some(s) ==> 0 <= s <= i && i - s + 1 == period,
{
}

/// The bar `period` bars before bar `i`, or `None` when there is none.
pub open spec fn lag_of(period: int, i: int) -> Option<int> {
    if i < period {
        None
    } else {
        Some(i - period)
    }
}

/// The bar `period` bars before bar `i`.
pub fn lagged_index(period: usize, i: usize) -> (r: Option<usize>)
    ensures
        match r {
            None => lag_of(period as int, i as int) is None,
            Some(j) => lag_of(period as int, i as int) == Some(j as int),
        },
{
    if i < period {
        None
    } else {
        Some(i - period)
    }
}

/// Where bar `i` stands in an exponential average of `period` bars.
#[derive(Debug, Clone, Copy, PartialEq, Eq, Structural)]
pub enum EmaPhase {
    /// Too early: no value yet.
    Warmup,
    /// The first value: the simple average of the first `period` bars.
    Seed,
    /// Each later value blends the bar into the previous value.
    Smooth,
}

/// The phase of bar `i` in an exponential average of `period` bars.
pub open spec fn ema_phase_of(period: int, i: int) -> EmaPhase {
    if i < period - 1 {
        EmaPhase::Warmup
    } else if i == period - 1 {
        EmaPhase::Seed
    } else {
        EmaPhase::Smooth
    }
}

/// The phase of bar `i` in an exponential average of `period` bars.
pub fn ema_phase(period: usize, i: usize) -> (r: EmaPhase)
    requires
        period >= 1,
    ensures
        r == ema_phase_of(period as int, i as int),
{
    if i < period - 1 {
        EmaPhase::Warmup
    } else if i == period - 1 {
        EmaPhase::Seed
    } else {
        EmaPhase::Smooth
    }
}

/// An exponential average is seeded once, at the bar where its first full
/// window closes, and has a value from there on; the seed window starts at
/// the first bar.
pub proof fn lemma_ema_seeded_once(period: int, i: int, j: int)
    requires
        period >= 1,
        0 <= i,
        0 <= j,
        ema_phase_of(period, i) is Seed,
        ema_phase_of(period, j) is Seed,
    ensures
        i == j,
        window_start_of(period, i) == Some(0int),
        forall|k: int| k > i ==> ema_phase_of(period, k) is Smooth,
        forall|k: int| 0 <= k < i ==> ema_phase_of(period, k) is Warmup,
{
}

/// `1 + 2 + ... + n`.
pub open spec fn weight_total(n: nat) -> nat
    decreases n,
{
    if n == 0 {
        0
    } else {
        n + weight_total((n - 1) as nat)
    }
}

/// The weights `1..=n` of a weighted average add up to `n (n + 1) / 2`.
pub proof fn lemma_weight_total(n: nat)
    ensures
        2 * weight_total(n) == n * (n + 1),
        weight_total(n) == n * (n + 1) / 2,
    decreases n,
{
    if n > 0 {
        lemma_weight_total((n - 1) as nat);
        assert(n * (n + 1) == (n - 1) * n + 2 * n) by (nonlinear_arith);
    }
    assert((n * (n + 1)) % 2 == 0) by {
        assert(2 * weight_total(n) == n * (n + 1));
    }
}

/// Simple moving average of the closes.
#[derive(Debug, Clone, Copy, PartialEq, Eq, Structural)]
pub struct SMA {
    pub period: usize,
}

impl SMA {
    pub fn name(&self) -> (r: &'static str)
        ensures
            r@ == "SMA"@,
    {
        "SMA"
    }

    /// First bar of the window averaged at bar `i`; `None` while it is not full.
    pub fn window_start(&self, i: usize) -> (r: Option<usize>)
        requires
            i < usize::MAX,
        ensures
            match r {
                None => window_start_of(self.period as int, i as int) is None,
                Some(s) => window_start_of(self.period as int, i as int) == Some(s as int),
            },
    {
        trailing_window(self.period, i)
    }
}

/// Exponential moving average of the closes, seeded with a simple average.
#[derive(Debug, Clone, Copy, PartialEq, Eq, Structural)]
pub struct EMA {
    pub period: usize,
}

impl EMA {
    pub fn name(&self) -> (r: &'static str)
        ensures
            r@ == "EMA"@,
    {
        "EMA"
    }

    /// Where bar `i` stands in the average.
    pub fn phase(&self, i: usize) -> (r: EmaPhase)
        requires
            self.period >= 1,
        ensures
            r == ema_phase_of(self.period as int, i as int),
    {
        ema_phase(self.period, i)
    }
}

/// Weighted moving average: the latest bar of the window weighs most.
#[derive(Debug, Clone, Copy, PartialEq, Eq, Structural)]
pub struct WMA {
    pub period: usize,
}

impl WMA {
    pub fn name(&self) -> (r: &'static str)
        ensures
            r@ == "Weighted Moving Average (WMA)"@,
    {
        "Weighted Moving Average (WMA)"
    }

    /// First bar of the window averaged at bar `i`; `None` while it is not full.
    pub fn window_start(&self, i: usize) -> (r: Option<usize>)
        requires
            i < usize::MAX,
        ensures
            match r {
                None => window_start_of(self.period as int, i as int) is None,
                Some(s) => window_start_of(self.period as int, i as int) == Some(s as int),
            },
    {
        trailing_window(self.period, i)
    }

    /// The sum of the weights `1..=period` that the weighted sum is divided by.
    pub fn weight_sum(&self) -> (r: usize)
        requires
            self.period * (self.period + 1) <= usize::MAX,
        ensures
            r == weight_total(self.period as nat),
    {
        proof {
            lemma_weight_total(self.period as nat);
        }
        self.period * (self.period + 1) / 2
    }
}

/// Average true range over a trailing window.
#[derive(Debug, Clone, Copy, PartialEq, Eq, Structural)]
pub struct ATR {
    pub period: usize,
}

impl ATR {
    pub fn name(&self) -> (r: &'static str)
        ensures
            r@ == "ATR"@,
    {
        "ATR"
    }

    /// First bar of the window of true ranges averaged at bar `i`.
    pub fn window_start(&self, i: usize) -> (r: Option<usize>)
        requires
            i < usize::MAX,
        ensures
            match r {
                None => window_start_of(self.period as int, i as int) is None,
                Some(s) => window_start_of(self.period as int, i as int) == Some(s as int),
            },
    {
        trailing_window(self.period, i)
    }
}

/// Commodity channel index over a trailing window of typical prices.
#[derive(Debug, Clone, Copy, PartialEq, Eq, Structural)]
pub struct CCI {
    pub period: usize,
}

impl CCI {
    pub fn name(&self) -> (r: &'static str)
        ensures
            r@ == "CCI"@,
    {
        "CCI"
    }

    /// First bar of the window of typical prices used at bar `i`.
    pub fn window_start(&self, i: usize) -> (r: Option<usize>)
        requires
            i < usize::MAX,
        ensures
            match r {
                None => window_start_of(self.period as int, i as int) is None,
                Some(s) => window_start_of(self.period as int, i as int) == Some(s as int),
            },
    {
        trailing_window(self.period, i)
    }
}

/// Difference between the fast and the slow exponential average.
#[derive(Debug, Clone, Copy, PartialEq, Eq, Structural)]
pub struct MACD {
    pub fast_period: usize,
    pub slow_period: usize,
}

impl MACD {
    pub fn name(&self) -> (r: &'static str)
        ensures
            r@ == "MACD"@,
    {
        "MACD"
    }

    /// Whether bar `i` has a value: both averages must have one.
    pub fn has_value(&self, i: usize) -> (r: bool)
        requires
            self.fast_period >= 1,
            self.slow_period >= 1,
        ensures
            r == (!(ema_phase_of(self.fast_period as int, i as int) is Warmup)
                && !(ema_phase_of(self.slow_period as int, i as int) is Warmup)),
    {
        let fast = ema_phase(self.fast_period, i);
        let slow = ema_phase(self.slow_period, i);
        !matches!(fast, EmaPhase::Warmup) && !matches!(slow, EmaPhase::Warmup)
    }
}

/// Difference between the close and the close `period` bars before.
#[derive(Debug, Clone, Copy, PartialEq, Eq, Structural)]
pub struct Momentum {
    pub period: usize,
}

impl Momentum {
    pub fn name(&self) -> (r: &'static str)
        ensures
            r@ == "Momentum"@,
    {
        "Momentum"
    }

    /// The bar compared with bar `i`.
    pub fn lag_index(&self, i: usize) -> (r: Option<usize>)
        ensures
            match r {
                None => lag_of(self.period as int, i as int) is None,
                Some(j) => lag_of(self.period as int, i as int) == Some(j as int),
            },
    {
        lagged_index(self.period, i)
    }
}

/// Percentage change of the close over `period` bars.
#[derive(Debug, Clone, Copy, PartialEq, Eq, Structural)]
pub struct RateOfChange {
    pub period: usize,
}

impl RateOfChange {
    pub fn name(&self) -> (r: &'static str)
        ensures
            r@ == "Rate of Change"@,
    {
        "Rate of Change"
    }

    /// The bar compared with bar `i`.
    pub fn lag_index(&self, i: usize) -> (r: Option<usize>)
        ensures
            match r {
                None => lag_of(self.period as int, i as int) is None,
                Some(j) => lag_of(self.period as int, i as int) == Some(j as int),
            },
    {
        lagged_index(self.period, i)
    }
}

/// Close minus its simple moving average.
#[derive(Debug, Clone, Copy, PartialEq, Eq, Structural)]
pub struct DetrendedPriceOscillator {
    pub period: usize,
}

impl DetrendedPriceOscillator {
    pub fn name(&self) -> (r: &'static str)
        ensures
            r@ == "Detrended Price Oscillator"@,
    {
        "Detrended Price Oscillator"
    }
}

/// The 61.8% retracement level between the high and the low of a trailing
/// window.
#[derive(Debug, Clone, Copy, PartialEq, Eq, Structural)]
pub struct FibonacciRetracement {
    pub period: usize,
}

impl FibonacciRetracement {
    pub fn name(&self) -> (r: &'static str)
        ensures
            r@ == "Fibonacci Retracement Zones"@,
    {
        "Fibonacci Retracement Zones"
    }
}

/// Price change times volume, smoothed by an exponential average.
#[derive(Debug, Clone, Copy, PartialEq, Eq, Structural)]
pub struct ForceIndex {
    pub period: usize,
}

impl ForceIndex {
    pub fn name(&self) -> (r: &'static str)
        ensures
            r@ == "Force Index"@,
    {
        "Force Index"
    }

    /// The raw force is smoothed only for periods above one.
    pub fn is_smoothed(&self) -> (r: bool)
        ensures
            r == (self.period > 1),
    {
        self.period > 1
    }
}

/// Triple exponential moving average.
#[derive(Debug, Clone, Copy, PartialEq, Eq, Structural)]
pub struct Tema {
    pub period: usize,
}

impl Tema {
    pub fn name(&self) -> (r: &'static str)
        ensures
            r@ == "Triple Exponential Moving Average (TEMA)"@,
    {
        "Triple Exponential Moving Average (TEMA)"
    }
}

/// Rate of change of a triple-smoothed exponential average.
#[derive(Debug, Clone, Copy, PartialEq, Eq, Structural)]
pub struct TRIX {
    pub period: usize,
}

impl TRIX {
    pub fn name(&self) -> (r: &'static str)
        ensures
            r@ == "TRIX"@,
    {
        "TRIX"
    }
}

/// Difference between a short and a long average of the volume.
#[derive(Debug, Clone, Copy, PartialEq, Eq, Structural)]
pub struct VolumeOscillator {
    pub short_period: usize,
    pub long_period: usize,
}

impl VolumeOscillator {
    pub fn name(&self) -> (r: &'static str)
        ensures
            r@ == "Volume Oscillator"@,
    {
        "Volume Oscillator"
    }
}

/// Weighted blend of buying pressure over three windows.
#[derive(Debug, Clone, Copy, PartialEq, Eq, Structural)]
pub struct UltimateOscillator {
    pub short_period: usize,
    pub mid_period: usize,
    pub long_period: usize,
}

impl UltimateOscillator {
    pub fn name(&self) -> (r: &'static str)
        ensures
            r@ == "Ultimate Oscillator"@,
    {
        "Ultimate Oscillator"
    }

    /// Whether bar `i` has a value: all three windows must be full.
    pub fn has_value(&self, i: usize) -> (r: bool)
        requires
            i < usize::MAX,
        ensures
            r == (window_start_of(self.short_period as int, i as int) is Some
                && window_start_of(self.mid_period as int, i as int) is Some
                && window_start_of(self.long_period as int, i as int) is Some),
    {
        trailing_window(self.short_period, i).is_some()
            && trailing_window(self.mid_period, i).is_some()
            && trailing_window(self.long_period, i).is_some()
    }
}

/// MACD run through a stochastic and smoothed again.
#[derive(Debug, Clone, Copy, PartialEq, Eq, Structural)]
pub struct SchaffTrendCycle {
    pub short_period: usize,
    pub long_period: usize,
    pub cycle_period: usize,
    pub fast_k: usize,
    pub fast_d: usize,
}

impl SchaffTrendCycle {
    pub fn name(&self) -> (r: &'static str)
        ensures
            r@ == "Schaff Trend Cycle"@,
    {
        "Schaff Trend Cycle"
    }
}

/// Running sum of volume weighted by where the close sits in the bar's range.
#[derive(Debug, Clone, Copy, PartialEq, Eq, Structural)]
pub struct AccumDistLine;

impl AccumDistLine {
    pub fn name(&self) -> (r: &'static str)
        ensures
            r@ == "Accumulation/Distribution Line"@,
    {
        "Accumulation/Distribution Line"
    }
}

/// On-balance volume.
#[derive(Debug, Clone, Copy, PartialEq, Eq, Structural)]
pub struct OBV;

impl OBV {
    pub fn name(&self) -> (r: &'static str)
        ensures
            r@ == "OBV"@,
    {
        "OBV"
    }
}

/// Volume-weighted average price since the first bar.
#[derive(Debug, Clone, Copy, PartialEq, Eq, Structural)]
pub struct VWAP;

impl VWAP {
    pub fn name(&self) -> (r: &'static str)
        ensures
            r@ == "VWAP"@,
    {
        "VWAP"
    }
}

} // verus!
