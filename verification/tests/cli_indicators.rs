use yeast::cli::{parse_command, parse_enhanced_command, volume_unit, Command, EnhancedCommand, VolumeUnit};
use yeast::indicators::{
    ema_phase, lagged_index, trailing_window, AccumDistLine, DetrendedPriceOscillator, EmaPhase,
    FibonacciRetracement, ForceIndex, Momentum, RateOfChange, SchaffTrendCycle, Tema, UltimateOscillator,
    VolumeOscillator, ATR, CCI, EMA, MACD, OBV, SMA, TRIX, VWAP, WMA,
};

#[test]
fn shell_commands() {
    assert!(matches!(parse_command(""), Command::Empty));
    assert!(matches!(parse_command("  help "), Command::Help));
    assert!(matches!(parse_command("exit"), Command::Quit));
    assert!(matches!(parse_command("quit now"), Command::Quit));
    match parse_command("hist aapl 5d") {
        Command::Hist { ticker, range } => {
            assert_eq!(ticker, "AAPL");
            assert_eq!(range, "5d");
        }
        other => panic!("unexpected {:?}", other),
    }
    match parse_command("hist msft") {
        Command::Hist { ticker, range } => {
            assert_eq!(ticker, "MSFT");
            assert_eq!(range, "1mo");
        }
        other => panic!("unexpected {:?}", other),
    }
    match parse_command("hist") {
        Command::Usage(u) => assert_eq!(u, "Usage: hist <ticker> [range]"),
        other => panic!("unexpected {:?}", other),
    }
    match parse_command("options tsla") {
        Command::Options { ticker } => assert_eq!(ticker, "TSLA"),
        other => panic!("unexpected {:?}", other),
    }
    match parse_command("quote") {
        Command::Usage(u) => assert_eq!(u, "Usage: quote <ticker>"),
        other => panic!("unexpected {:?}", other),
    }
    match parse_command("quote ibm") {
        Command::Quote { ticker } => assert_eq!(ticker, "IBM"),
        other => panic!("unexpected {:?}", other),
    }
    assert!(matches!(parse_command("market"), Command::Market));
    match parse_command("dance") {
        Command::Unknown(w) => assert_eq!(w, "dance"),
        other => panic!("unexpected {:?}", other),
    }
}

#[test]
fn ticker_is_upper_cased_by_unicode_rules() {
    match parse_command("quote straße") {
        Command::Quote { ticker } => assert_eq!(ticker, "STRASSE"),
        other => panic!("unexpected {:?}", other),
    }
}

#[test]
fn enhanced_shell_commands() {
    match parse_enhanced_command("quotes aapl,msft,goog") {
        EnhancedCommand::Quotes { symbols } => assert_eq!(symbols, vec!["AAPL", "MSFT", "GOOG"]),
        other => panic!("unexpected {:?}", other),
    }
    // the list is the second word only: a space ends it
    match parse_enhanced_command("quotes aapl, msft") {
        EnhancedCommand::Quotes { symbols } => assert_eq!(symbols, vec!["AAPL", ""]),
        other => panic!("unexpected {:?}", other),
    }
    match parse_enhanced_command("quotes aapl,,x") {
        EnhancedCommand::Quotes { symbols } => assert_eq!(symbols, vec!["AAPL", "", "X"]),
        other => panic!("unexpected {:?}", other),
    }
    match parse_enhanced_command("quotes") {
        EnhancedCommand::Usage(u) => assert_eq!(u, "Usage: quotes <symbol1,symbol2,...>"),
        other => panic!("unexpected {:?}", other),
    }
    match parse_enhanced_command("quote nvda") {
        EnhancedCommand::Quote { symbol } => assert_eq!(symbol, "NVDA"),
        other => panic!("unexpected {:?}", other),
    }
    match parse_enhanced_command("hist spy 1y") {
        EnhancedCommand::Hist { symbol, range } => {
            assert_eq!(symbol, "SPY");
            assert_eq!(range, "1y");
        }
        other => panic!("unexpected {:?}", other),
    }
    assert!(matches!(parse_enhanced_command("screen"), EnhancedCommand::Screen));
    assert!(matches!(parse_enhanced_command("health"), EnhancedCommand::Health));
    assert!(matches!(parse_enhanced_command("portfolio"), EnhancedCommand::Portfolio));
    assert!(matches!(parse_enhanced_command("market"), EnhancedCommand::Market));
    assert!(matches!(parse_enhanced_command("   "), EnhancedCommand::Empty));
    match parse_enhanced_command("Help") {
        EnhancedCommand::Unknown(w) => assert_eq!(w, "Help"),
        other => panic!("unexpected {:?}", other),
    }
}

#[test]
fn volume_units() {
    assert_eq!(volume_unit(999), VolumeUnit::Shares);
    assert_eq!(volume_unit(1_000), VolumeUnit::Thousands);
    assert_eq!(volume_unit(999_999), VolumeUnit::Thousands);
    assert_eq!(volume_unit(1_000_000), VolumeUnit::Millions);
    assert_eq!(volume_unit(2_500_000_000), VolumeUnit::Billions);
    assert_eq!(VolumeUnit::Millions.divisor(), 1_000_000);
    assert_eq!(VolumeUnit::Billions.suffix(), "B");
    assert_eq!(VolumeUnit::Shares.suffix(), "");
    assert_eq!(VolumeUnit::Shares.divisor(), 1);
}

#[test]
fn trailing_windows() {
    assert_eq!(trailing_window(3, 0), None);
    assert_eq!(trailing_window(3, 1), None);
    assert_eq!(trailing_window(3, 2), Some(0));
    assert_eq!(trailing_window(3, 9), Some(7));
    assert_eq!(trailing_window(0, 4), Some(5));
    assert_eq!(SMA { period: 5 }.window_start(4), Some(0));
    assert_eq!(ATR { period: 14 }.window_start(12), None);
    assert_eq!(CCI { period: 20 }.window_start(25), Some(6));
    assert_eq!(WMA { period: 2 }.window_start(1), Some(0));
}

#[test]
fn look_back_offsets() {
    assert_eq!(lagged_index(10, 9), None);
    assert_eq!(lagged_index(10, 10), Some(0));
    assert_eq!(Momentum { period: 3 }.lag_index(7), Some(4));
    assert_eq!(RateOfChange { period: 12 }.lag_index(11), None);
}

#[test]
fn exponential_average_phases() {
    assert_eq!(ema_phase(5, 3), EmaPhase::Warmup);
    assert_eq!(ema_phase(5, 4), EmaPhase::Seed);
    assert_eq!(ema_phase(5, 5), EmaPhase::Smooth);
    assert_eq!(ema_phase(1, 0), EmaPhase::Seed);
    assert_eq!(EMA { period: 2 }.phase(0), EmaPhase::Warmup);
    let macd = MACD { fast_period: 12, slow_period: 26 };
    assert!(!macd.has_value(24));
    assert!(macd.has_value(25));
}

#[test]
fn weighted_average_weights() {
    assert_eq!(WMA { period: 10 }.weight_sum(), 55);
    assert_eq!(WMA { period: 1 }.weight_sum(), 1);
    assert_eq!(WMA { period: 0 }.weight_sum(), 0);
}

#[test]
fn other_indicator_rules() {
    assert!(!ForceIndex { period: 1 }.is_smoothed());
    assert!(ForceIndex { period: 13 }.is_smoothed());
    let uo = UltimateOscillator { short_period: 7, mid_period: 14, long_period: 28 };
    assert!(!uo.has_value(26));
    assert!(uo.has_value(27));
}

#[test]
fn indicator_names() {
    assert_eq!(SMA { period: 5 }.name(), "SMA");
    assert_eq!(EMA { period: 5 }.name(), "EMA");
    assert_eq!(WMA { period: 5 }.name(), "Weighted Moving Average (WMA)");
    assert_eq!(ATR { period: 5 }.name(), "ATR");
    assert_eq!(CCI { period: 5 }.name(), "CCI");
    assert_eq!(MACD { fast_period: 1, slow_period: 2 }.name(), "MACD");
    assert_eq!(Momentum { period: 1 }.name(), "Momentum");
    assert_eq!(RateOfChange { period: 1 }.name(), "Rate of Change");
    assert_eq!(DetrendedPriceOscillator { period: 1 }.name(), "Detrended Price Oscillator");
    assert_eq!(FibonacciRetracement { period: 1 }.name(), "Fibonacci Retracement Zones");
    assert_eq!(ForceIndex { period: 1 }.name(), "Force Index");
    assert_eq!(Tema { period: 1 }.name(), "Triple Exponential Moving Average (TEMA)");
    assert_eq!(TRIX { period: 1 }.name(), "TRIX");
    assert_eq!(VolumeOscillator { short_period: 1, long_period: 2 }.name(), "Volume Oscillator");
    assert_eq!(
        UltimateOscillator { short_period: 1, mid_period: 2, long_period: 3 }.name(),
        "Ultimate Oscillator"
    );
    let stc = SchaffTrendCycle { short_period: 50, long_period: 50, cycle_period: 10, fast_k: 23, fast_d: 50 };
    assert_eq!(stc.name(), "Schaff Trend Cycle");
    assert_eq!(AccumDistLine.name(), "Accumulation/Distribution Line");
    assert_eq!(OBV.name(), "OBV");
    assert_eq!(VWAP.name(), "VWAP");
}
