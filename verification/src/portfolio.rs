//! The discrete rules of portfolio bookkeeping: finding a position by its
//! symbol, and which figure an alert reads and how it compares it with its
//! target. The figures themselves are floating point and are compared by
//! the caller as the rule says.

use vstd::prelude::*;
use crate::api2::{AlertCondition, AlertType};
use crate::text::str_eq;

verus! {

/// Finds the position holding `symbol`: the first one, when there are several.
pub fn position_index(symbols: &Vec<String>, symbol: &str) -> (r: Option<usize>)
    ensures
        match r {
            Some(i) => i < symbols@.len() && symbols@[i as int]@ == symbol@
                && forall|j: int| 0 <= j < i ==> #[trigger] symbols@[j]@ != symbol@,
            None => forall|j: int| 0 <= j < symbols@.len() ==> #[trigger] symbols@[j]@ != symbol@,
        },
{
    let mut i: usize = 0;
    while i < symbols.len()
        invariant
            i <= symbols@.len(),
            forall|j: int| 0 <= j < i ==> #[trigger] symbols@[j]@ != symbol@,
        decreases symbols@.len() - i,
    {
        if str_eq(symbols[i].as_str(), symbol) {
            return Some(i);
        }
        i = i + 1;
    }
    None
}

/// A figure of a portfolio that an alert can read.
#[derive(Debug, Clone, Copy, PartialEq, Eq, Structural)]
pub enum AlertMeasure {
    /// The current price of the watched position.
    PositionPrice,
    /// The watched position's price change from its average cost, in percent.
    PositionGainPercent,
    /// The total value of the portfolio.
    PortfolioValue,
    /// The total return of the portfolio, in percent.
    TotalReturnPercent,
    /// The weight of the watched position in the portfolio, in percent.
    PositionWeight,
    /// The change of the portfolio over the day, in percent.
    DayChangePercent,
}

/// How a figure is held against an alert's target.
#[derive(Debug, Clone, Copy, PartialEq, Eq, Structural)]
pub enum AlertTest {
    /// Fires when the figure is at least the target.
    AtLeast,
    /// Fires when the figure is at most the target.
    AtMost,
    /// Fires when the figure's magnitude is at least the target.
    MagnitudeAtLeast,
    /// Never fires.
    Never,
}

/// What an alert reads: the figure it records as its current value, the
/// figure it compares, and the comparison.
#[derive(Debug, Clone, Copy, PartialEq, Eq, Structural)]
pub struct AlertRule {
    pub shown: AlertMeasure,
    pub compared: AlertMeasure,
    pub test: AlertTest,
}

/// The comparison of a condition: above, below, or by magnitude.
pub open spec fn test_of(c: AlertCondition) -> AlertTest {
    match c {
        AlertCondition::Above => AlertTest::AtLeast,
        AlertCondition::Below => AlertTest::AtMost,
        AlertCondition::PercentChange => AlertTest::MagnitudeAtLeast,
    }
}

/// The rule of an alert of type `t` with condition `c`.
pub open spec fn alert_rule_of(t: AlertType, c: AlertCondition) -> AlertRule {
    match t {
        AlertType::PriceAlert { .. } => match c {
            AlertCondition::PercentChange => AlertRule {
                shown: AlertMeasure::PositionPrice,
                compared: AlertMeasure::PositionGainPercent,
                test: AlertTest::MagnitudeAtLeast,
            },
            _ => AlertRule {
                shown: AlertMeasure::PositionPrice,
                compared: AlertMeasure::PositionPrice,
                test: test_of(c),
            },
        },
        AlertType::PortfolioValue => match c {
            AlertCondition::PercentChange => AlertRule {
                shown: AlertMeasure::PortfolioValue,
                compared: AlertMeasure::TotalReturnPercent,
                test: AlertTest::MagnitudeAtLeast,
            },
            _ => AlertRule {
                shown: AlertMeasure::PortfolioValue,
                compared: AlertMeasure::PortfolioValue,
                test: test_of(c),
            },
        },
        AlertType::PositionWeight { .. } => AlertRule {
            shown: AlertMeasure::PositionWeight,
            compared: AlertMeasure::PositionWeight,
            test: match c {
                AlertCondition::PercentChange => AlertTest::Never,
                _ => test_of(c),
            },
        },
        AlertType::DayChange => AlertRule {
            shown: AlertMeasure::DayChangePercent,
            compared: AlertMeasure::DayChangePercent,
            test: test_of(c),
        },
        AlertType::TotalReturn => AlertRule {
            shown: AlertMeasure::TotalReturnPercent,
            compared: AlertMeasure::TotalReturnPercent,
            test: test_of(c),
        },
    }
}

fn condition_test(c: AlertCondition) -> (r: AlertTest)
    ensures
        r == test_of(c),
{
    match c {
        AlertCondition::Above => AlertTest::AtLeast,
        AlertCondition::Below => AlertTest::AtMost,
        AlertCondition::PercentChange => AlertTest::MagnitudeAtLeast,
    }
}

/// The rule an alert is checked by.
pub fn alert_rule(t: &AlertType, c: AlertCondition) -> (r: AlertRule)
    ensures
        r == alert_rule_of(*t, c),
{
    match t {
        AlertType::PriceAlert { .. } => match c {
            AlertCondition::PercentChange => AlertRule {
                shown: AlertMeasure::PositionPrice,
                compared: AlertMeasure::PositionGainPercent,
                test: AlertTest::MagnitudeAtLeast,
            },
            _ => AlertRule {
                shown: AlertMeasure::PositionPrice,
                compared: AlertMeasure::PositionPrice,
                test: condition_test(c),
            },
        },
        AlertType::PortfolioValue => match c {
            AlertCondition::PercentChange => AlertRule {
                shown: AlertMeasure::PortfolioValue,
                compared: AlertMeasure::TotalReturnPercent,
                test: AlertTest::MagnitudeAtLeast,
            },
            _ => AlertRule {
                shown: AlertMeasure::PortfolioValue,
                compared: AlertMeasure::PortfolioValue,
                test: condition_test(c),
            },
        },
        AlertType::PositionWeight { .. } => AlertRule {
            shown: AlertMeasure::PositionWeight,
            compared: AlertMeasure::PositionWeight,
            test: match c {
                AlertCondition::PercentChange => AlertTest::Never,
                _ => condition_test(c),
            },
        },
        AlertType::DayChange => AlertRule {
            shown: AlertMeasure::DayChangePercent,
            compared: AlertMeasure::DayChangePercent,
            test: condition_test(c),
        },
        AlertType::TotalReturn => AlertRule {
            shown: AlertMeasure::TotalReturnPercent,
            compared: AlertMeasure::TotalReturnPercent,
            test: condition_test(c),
        },
    }
}

/// The symbol of the position an alert watches, for the alerts that watch one.
pub open spec fn watched_symbol_of(t: AlertType) -> Option<Seq<char>> {
    match t {
        AlertType::PriceAlert { symbol } => Some(symbol@),
        AlertType::PositionWeight { symbol } => Some(symbol@),
        _ => None,
    }
}

/// The symbol of the position an alert watches. Such an alert does not fire,
/// and keeps its current value, while the portfolio holds no such position.
pub fn watched_symbol(t: &AlertType) -> (r: Option<&String>)
    ensures
        match r {
            Some(s) => watched_symbol_of(*t) == Some(s@),
            None => watched_symbol_of(*t) is None,
        },
{
    match t {
        AlertType::PriceAlert { symbol } => Some(symbol),
        AlertType::PositionWeight { symbol } => Some(symbol),
        _ => None,
    }
}

/// Every alert that reads a figure of one position watches a position, and
/// only a weight alert on a percentage change can never fire.
pub proof fn lemma_alert_rules(t: AlertType, c: AlertCondition)
    ensures
        (alert_rule_of(t, c).shown is PositionPrice || alert_rule_of(t, c).shown is PositionWeight)
            <==> watched_symbol_of(t) is Some,
        alert_rule_of(t, c).test is Never <==> (t is PositionWeight && c is PercentChange),
{
}

} // verus!
