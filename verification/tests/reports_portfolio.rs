use yeast::api::ApiError;
use yeast::api2::{AlertCondition, AlertType};
use yeast::config::ApiConfig;
use yeast::json::Json;
use yeast::options::{keeps_side, parse_option_side, OptionSide};
use yeast::ordering::{parse_sort_field, stable_order, SortField};
use yeast::portfolio::{alert_rule, position_index, watched_symbol, AlertMeasure, AlertRule, AlertTest};
use yeast::reports::{
    dividend_event_text, earnings_event_text, finance_events, raw_numbers, statement_date, statement_history,
};
use yeast::summary::{parse_asset_profile, raw_count, raw_field, summary_result};
use yeast::text_order::{stable_text_order, text_le_exec};

fn s(x: &str) -> Json {
    Json::Str(x.to_string())
}

fn obj(fields: Vec<(&str, Json)>) -> Json {
    Json::Object(fields.into_iter().map(|(k, v)| (k.to_string(), v)).collect())
}

#[test]
fn quote_summary_result_is_found() {
    let json = obj(vec![(
        "quoteSummary",
        obj(vec![("result", Json::Array(vec![obj(vec![("k", Json::PosInt(1))]), Json::Null]))]),
    )]);
    let r = summary_result(&json).unwrap();
    assert!(matches!(r.get("k"), Some(Json::PosInt(1))));
    let empty = obj(vec![("quoteSummary", obj(vec![("result", Json::Array(vec![]))]))]);
    match summary_result(&empty) {
        Err(ApiError::DataNotFound(m)) => assert_eq!(m, "No quote summary data"),
        other => panic!("unexpected {:?}", other),
    }
    assert!(summary_result(&Json::Null).is_err());
}

#[test]
fn asset_profile_is_read() {
    let ap = obj(vec![
        ("city", s("Cupertino")),
        ("sector", s("Technology")),
        ("zip", Json::PosInt(95014)),
        ("fullTimeEmployees", Json::PosInt(164_000)),
        ("longBusinessSummary", s("Phones.")),
    ]);
    let p = parse_asset_profile(&ap);
    assert_eq!(p.city, Some("Cupertino".to_string()));
    assert_eq!(p.sector, Some("Technology".to_string()));
    assert_eq!(p.zip, None);
    assert_eq!(p.address1, None);
    assert_eq!(p.full_time_employees, Some(164_000));
    assert_eq!(p.long_business_summary, Some("Phones.".to_string()));
    let neg = parse_asset_profile(&obj(vec![("fullTimeEmployees", Json::NegInt(-3))]));
    assert_eq!(neg.full_time_employees, None);
}

#[test]
fn raw_numbers_of_a_module() {
    let fd = obj(vec![
        ("currentPrice", obj(vec![("raw", Json::Float("189.5".to_string())), ("fmt", s("189.50"))])),
        ("numberOfAnalystOpinions", obj(vec![("raw", Json::PosInt(4_294_967_297))])),
        ("recommendationKey", s("buy")),
    ]);
    assert!(matches!(raw_field(&fd, "currentPrice"), Some(Json::Float(t)) if t == "189.5"));
    assert!(raw_field(&fd, "recommendationKey").is_none());
    assert!(raw_field(&fd, "ebitda").is_none());
    // the count keeps its low 32 bits
    assert_eq!(raw_count(&fd, "numberOfAnalystOpinions"), Some(1));
    assert_eq!(raw_count(&fd, "currentPrice"), None);
}

#[test]
fn calendar_events_are_located() {
    let json = obj(vec![(
        "finance",
        obj(vec![("result", Json::Array(vec![obj(vec![("earnings", Json::Array(vec![Json::Null, Json::Null]))])]))]),
    )]);
    assert_eq!(finance_events(&json, "earnings").map(|v| v.len()), Some(2));
    assert!(finance_events(&json, "dividends").is_none());
    assert!(finance_events(&obj(vec![]), "earnings").is_none());
}

#[test]
fn earnings_and_dividend_events() {
    let e = obj(vec![
        ("ticker", s("AAPL")),
        ("companyshortname", s("Apple")),
        ("startdatetime", s("2024-05-02")),
        ("epsestimate", Json::Float("1.5".to_string())),
    ]);
    assert_eq!(
        earnings_event_text(&e),
        Some(("AAPL".to_string(), "Apple".to_string(), "2024-05-02".to_string()))
    );
    assert_eq!(earnings_event_text(&obj(vec![("ticker", s("AAPL"))])), None);
    let d = obj(vec![
        ("ticker", s("KO")),
        ("companyshortname", s("Coca-Cola")),
        ("exdividenddate", s("2024-06-14")),
        ("amount", Json::Float("0.485".to_string())),
        ("yield", Json::PosInt(3)),
    ]);
    assert_eq!(
        dividend_event_text(&d),
        Some(("KO".to_string(), "Coca-Cola".to_string(), "2024-06-14".to_string(), None))
    );
    let no_yield = obj(vec![
        ("ticker", s("KO")),
        ("companyshortname", s("Coca-Cola")),
        ("exdividenddate", s("2024-06-14")),
        ("amount", Json::Float("0.485".to_string())),
        ("yield", s("3%")),
    ]);
    assert_eq!(dividend_event_text(&no_yield), None);
}

#[test]
fn financial_statements() {
    let statement = obj(vec![
        ("endDate", obj(vec![("raw", Json::PosInt(1)), ("fmt", s("2023-09-30"))])),
        ("totalRevenue", obj(vec![("raw", Json::PosInt(383_285_000_000))])),
        ("maxAge", Json::PosInt(1)),
        ("netIncome", obj(vec![("raw", Json::NegInt(-5))])),
        ("note", obj(vec![("raw", s("n/a"))])),
    ]);
    assert_eq!(statement_date(&statement), Some("2023-09-30".to_string()));
    assert_eq!(statement_date(&obj(vec![])), None);
    let nums = raw_numbers(&statement);
    let keys: Vec<&str> = nums.iter().map(|(k, _)| k.as_str()).collect();
    assert_eq!(keys, vec!["endDate", "totalRevenue", "netIncome"]);
    assert!(matches!(nums[2].1, Json::NegInt(-5)));
    assert!(raw_numbers(&Json::Null).is_empty());
    let result = obj(vec![(
        "incomeStatementHistory",
        obj(vec![("incomeStatementHistory", Json::Array(vec![statement]))]),
    )]);
    assert_eq!(statement_history(&result, "incomeStatementHistory").map(|v| v.len()), Some(1));
    assert!(statement_history(&result, "balanceSheetHistory").is_none());
}

#[test]
fn positions_are_found_by_symbol() {
    let symbols = vec!["AAPL".to_string(), "MSFT".to_string(), "AAPL".to_string()];
    assert_eq!(position_index(&symbols, "AAPL"), Some(0));
    assert_eq!(position_index(&symbols, "MSFT"), Some(1));
    assert_eq!(position_index(&symbols, "GOOG"), None);
    assert_eq!(position_index(&vec![], "GOOG"), None);
}

#[test]
fn alert_rules() {
    let price = AlertType::PriceAlert { symbol: "AAPL".to_string() };
    assert_eq!(
        alert_rule(&price, AlertCondition::Above),
        AlertRule { shown: AlertMeasure::PositionPrice, compared: AlertMeasure::PositionPrice, test: AlertTest::AtLeast }
    );
    assert_eq!(
        alert_rule(&price, AlertCondition::PercentChange),
        AlertRule {
            shown: AlertMeasure::PositionPrice,
            compared: AlertMeasure::PositionGainPercent,
            test: AlertTest::MagnitudeAtLeast
        }
    );
    assert_eq!(
        alert_rule(&AlertType::PortfolioValue, AlertCondition::PercentChange).compared,
        AlertMeasure::TotalReturnPercent
    );
    assert_eq!(alert_rule(&AlertType::PortfolioValue, AlertCondition::Below).test, AlertTest::AtMost);
    let weight = AlertType::PositionWeight { symbol: "MSFT".to_string() };
    assert_eq!(alert_rule(&weight, AlertCondition::PercentChange).test, AlertTest::Never);
    assert_eq!(alert_rule(&AlertType::DayChange, AlertCondition::Above).shown, AlertMeasure::DayChangePercent);
    assert_eq!(
        alert_rule(&AlertType::TotalReturn, AlertCondition::PercentChange).test,
        AlertTest::MagnitudeAtLeast
    );
    assert_eq!(watched_symbol(&weight), Some(&"MSFT".to_string()));
    assert_eq!(watched_symbol(&AlertType::DayChange), None);
}

#[test]
fn sort_fields() {
    assert_eq!(parse_sort_field("volume").unwrap(), SortField::Volume);
    assert_eq!(parse_sort_field("pe_ratio").unwrap(), SortField::PeRatio);
    match parse_sort_field("name") {
        Err(ApiError::InvalidParameters(m)) => assert_eq!(m, "Unknown sort field: name"),
        other => panic!("unexpected {:?}", other),
    }
}

#[test]
fn stable_sort_by_volume() {
    let keys = vec![30u64, 10, 30, 20, 10];
    assert_eq!(stable_order(&keys, true), vec![1, 4, 3, 0, 2]);
    assert_eq!(stable_order(&keys, false), vec![0, 2, 3, 1, 4]);
    assert!(stable_order(&vec![], true).is_empty());
}

#[test]
fn option_sides() {
    assert!(keeps_side(&None, OptionSide::Call));
    assert!(keeps_side(&None, OptionSide::Put));
    assert!(!keeps_side(&Some("put".to_string()), OptionSide::Call));
    assert!(keeps_side(&Some("put".to_string()), OptionSide::Put));
    assert!(!keeps_side(&Some("call".to_string()), OptionSide::Put));
    assert!(keeps_side(&Some("both".to_string()), OptionSide::Put));
    assert_eq!(parse_option_side("call").unwrap(), OptionSide::Call);
    assert_eq!(parse_option_side("put").unwrap(), OptionSide::Put);
    match parse_option_side("Call") {
        Err(ApiError::InvalidParameters(m)) => assert_eq!(m, "Invalid option type"),
        other => panic!("unexpected {:?}", other),
    }
}

#[test]
fn default_deployment() {
    let c = ApiConfig::default();
    assert_eq!(c.port, 8080);
    assert!(c.enable_cors);
    let limit = c.rate_limit.unwrap();
    assert_eq!(limit.requests_per_minute, 60);
    assert_eq!(limit.requests_per_hour, 1000);
    assert_eq!(c.cache_ttl, 60);
    assert_eq!(c.max_tickers_per_request, 10);
}

#[test]
fn text_order_and_stable_sort_by_symbol() {
    assert!(text_le_exec("AAPL", "AAPL"));
    assert!(text_le_exec("AAPL", "AAPLX"));
    assert!(!text_le_exec("AAPLX", "AAPL"));
    assert!(text_le_exec("", "A"));
    assert!(text_le_exec("IBM", "MSFT"));
    assert!(!text_le_exec("b", "B"));
    assert!(text_le_exec("Z", "é"));
    let keys: Vec<String> = ["MSFT", "AAPL", "MSFT", "IBM", "AAPL"].iter().map(|s| s.to_string()).collect();
    assert_eq!(stable_text_order(&keys, true), vec![1, 4, 3, 0, 2]);
    assert_eq!(stable_text_order(&keys, false), vec![0, 2, 3, 1, 4]);
    let mut sorted = keys.clone();
    sorted.sort();
    let by_order: Vec<String> = stable_text_order(&keys, true).into_iter().map(|i| keys[i].clone()).collect();
    assert_eq!(by_order, sorted);
}
